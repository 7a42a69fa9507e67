//! The discovery-file format: a flat JSON object with the five metadata
//! fields, written and read by this module.
//!
//! The encoder emits exactly one shape,
//! `{"pid":…,"start_time":…,"protocol_version":"…","endpoint":"…","daemon_id":"…"}`,
//! and refuses a record whose string fields would need escaping (a
//! quote, a backslash or a control character) — no field written by
//! this daemon ever does. The parser accepts exactly that shape and
//! answers `None` to everything else; a reader treats `None` as "no
//! daemon". Reading back what was written gives the record again
//! (`lemma_parse_of_encode`).

use vstd::prelude::*;
use vstd::string::StringExecFns;

use crate::decimal::{
    dec_digits, dec_digits_signed, dec_value, digits_end, is_dec_digit,
    lemma_dec_digits_are_digits, lemma_dec_digits_len, lemma_dec_value_of_digits,
    lemma_digits_end_exact, parse_dec_run, pow10,
};
use crate::discovery::{DaemonMetadata, MetaView};
use crate::strutil::{spec_matches_at, str_matches_at};

verus! {

/// True when `c` may stand unescaped inside a JSON string.
pub open spec fn plain_json_char(c: char) -> bool {
    c != '"' && c != '\\' && c as int >= 32
}

/// True when `s` needs no escaping inside a JSON string.
pub open spec fn plain_json_field(s: Seq<char>) -> bool {
    forall|i: int| 0 <= i < s.len() ==> plain_json_char(#[trigger] s[i])
}

/// True when the encoder can write the record: every string field is
/// free of quotes, backslashes and control characters.
pub open spec fn encodable(m: MetaView) -> bool {
    &&& plain_json_field(m.protocol_version)
    &&& plain_json_field(m.endpoint)
    &&& plain_json_field(m.daemon_id)
}

/// The object's opening and the `pid` key.
pub open spec fn lit_pid() -> Seq<char> {
    "{\"pid\":"@
}

/// The `start_time` key with its separators.
pub open spec fn lit_start_time() -> Seq<char> {
    ",\"start_time\":"@
}

/// The `protocol_version` key with its separators and opening quote.
pub open spec fn lit_protocol_version() -> Seq<char> {
    ",\"protocol_version\":\""@
}

/// The `endpoint` key between its neighbouring quotes.
pub open spec fn lit_endpoint() -> Seq<char> {
    "\",\"endpoint\":\""@
}

/// The `daemon_id` key between its neighbouring quotes.
pub open spec fn lit_daemon_id() -> Seq<char> {
    "\",\"daemon_id\":\""@
}

/// The closing quote and brace.
pub open spec fn lit_close() -> Seq<char> {
    "\"}"@
}

/// The one shape the encoder writes for a record.
pub open spec fn encode_meta(m: MetaView) -> Seq<char> {
    lit_pid() + dec_digits(m.pid) + lit_start_time() + dec_digits_signed(m.start_time)
        + lit_protocol_version() + m.protocol_version + lit_endpoint() + m.endpoint
        + lit_daemon_id() + m.daemon_id + lit_close()
}

/// Where the string value starting at `i` ends: the index of the first
/// quote at or after `i` (or the end of the input).
pub open spec fn string_end(s: Seq<char>, i: int) -> int
    decreases s.len() - i
        when 0 <= i <= s.len()
{
    if i < s.len() && s[i] != '"' {
        string_end(s, i + 1)
    } else {
        i
    }
}

/// The string value ends exactly at the first quote.
pub proof fn lemma_string_end_exact(s: Seq<char>, i: int, j: int)
    requires
        0 <= i <= j <= s.len(),
        forall|k: int| i <= k < j ==> s[k] != '"',
        j == s.len() || s[j] == '"',
    ensures
        string_end(s, i) == j,
    decreases j - i,
{
    if i < j {
        lemma_string_end_exact(s, i + 1, j);
    }
}

/// What the parser makes of an input. `None` means the input is not a
/// record this codec wrote: a reader treats that as "no daemon".
pub open spec fn spec_parse_meta(s: Seq<char>) -> Option<MetaView> {
    if !spec_matches_at(s, 0, lit_pid()) {
        None
    } else {
        let i1 = lit_pid().len() as int;
        let j1 = digits_end(s, i1);
        if j1 == i1 || j1 - i1 > 19 {
            None
        } else {
            let pid = dec_value(s.subrange(i1, j1));
            if pid > 0xffffffff || !spec_matches_at(s, j1, lit_start_time()) {
                None
            } else {
                let i2 = j1 + lit_start_time().len();
                let neg = i2 < s.len() && s[i2] == '-';
                let i2d: int = if neg {
                    i2 + 1
                } else {
                    i2
                };
                let j2 = digits_end(s, i2d);
                if j2 == i2d || j2 - i2d > 19 {
                    None
                } else {
                    let mag = dec_value(s.subrange(i2d, j2));
                    if (neg && mag > 0x8000000000000000) || (!neg && mag > 0x7fffffffffffffff)
                        || !spec_matches_at(s, j2, lit_protocol_version()) {
                        None
                    } else {
                        let start_time: int = if neg {
                            -(mag as int)
                        } else {
                            mag as int
                        };
                        let i3 = j2 + lit_protocol_version().len();
                        let j3 = string_end(s, i3);
                        if !spec_matches_at(s, j3, lit_endpoint()) {
                            None
                        } else {
                            let i4 = j3 + lit_endpoint().len();
                            let j4 = string_end(s, i4);
                            if !spec_matches_at(s, j4, lit_daemon_id()) {
                                None
                            } else {
                                let i5 = j4 + lit_daemon_id().len();
                                let j5 = string_end(s, i5);
                                if !spec_matches_at(s, j5, lit_close()) || j5 + 2 != s.len() {
                                    None
                                } else {
                                    Some(
                                        MetaView {
                                            pid,
                                            start_time,
                                            protocol_version: s.subrange(i3, j3),
                                            endpoint: s.subrange(i4, j4),
                                            daemon_id: s.subrange(i5, j5),
                                        },
                                    )
                                }
                            }
                        }
                    }
                }
            }
        }
    }
}

/// Reading back what the encoder wrote gives the record again: for
/// every encodable record whose numbers fit their wire types, parsing
/// its encoding yields exactly the record.
pub proof fn lemma_parse_of_encode(m: MetaView)
    requires
        encodable(m),
        m.pid <= 0xffffffff,
        -0x8000000000000000 <= m.start_time <= 0x7fffffffffffffff,
    ensures
        spec_parse_meta(encode_meta(m)) == Some(m),
{
    let s = encode_meta(m);
    let a1 = lit_pid();
    let d1 = dec_digits(m.pid);
    let a2 = lit_start_time();
    let d2 = dec_digits_signed(m.start_time);
    let a3 = lit_protocol_version();
    let f1 = m.protocol_version;
    let a4 = lit_endpoint();
    let f2 = m.endpoint;
    let a5 = lit_daemon_id();
    let f3 = m.daemon_id;
    let a6 = lit_close();
    reveal_strlit("{\"pid\":");
    reveal_strlit(",\"start_time\":");
    reveal_strlit(",\"protocol_version\":\"");
    reveal_strlit("\",\"endpoint\":\"");
    reveal_strlit("\",\"daemon_id\":\"");
    reveal_strlit("\"}");
    assert(a1.len() == 7);
    assert(a2.len() == 14);
    assert(a3.len() == 21);
    assert(a4.len() == 14);
    assert(a5.len() == 15);
    assert(a6.len() == 2);
    let neg = m.start_time < 0;
    let mag: nat = if neg {
        (-m.start_time) as nat
    } else {
        m.start_time as nat
    };
    let dm = dec_digits(mag);
    lemma_dec_digits_are_digits(m.pid);
    lemma_dec_digits_are_digits(mag);
    lemma_dec_value_of_digits(m.pid);
    lemma_dec_value_of_digits(mag);
    reveal_with_fuel(pow10, 21);
    assert(pow10(10) == 10000000000);
    assert(pow10(19) == 10000000000000000000);
    lemma_dec_digits_len(m.pid, 10);
    lemma_dec_digits_len(mag, 19);

    // The positions of the pieces inside the encoding.
    let i1 = a1.len() as int;
    let j1 = i1 + d1.len();
    let i2 = j1 + a2.len();
    let i2d = if neg {
        i2 + 1
    } else {
        i2
    };
    let j2 = i2d + dm.len();
    let i3 = j2 + a3.len();
    let j3 = i3 + f1.len();
    let i4 = j3 + a4.len();
    let j4 = i4 + f2.len();
    let i5 = j4 + a5.len();
    let j5 = i5 + f3.len();
    assert(d2 =~= if neg {
        seq!['-'] + dm
    } else {
        dm
    });
    assert(s.len() == j5 + 2);

    // Each piece sits at its position.
    assert(s.subrange(0, i1) =~= a1);
    assert(s.subrange(i1, j1) =~= d1);
    assert(s.subrange(j1, i2) =~= a2);
    if neg {
        assert(s[i2] == '-');
    }
    assert(s.subrange(i2d, j2) =~= dm);
    assert(s.subrange(j2, i3) =~= a3);
    assert(s.subrange(i3, j3) =~= f1);
    assert(s.subrange(j3, i4) =~= a4);
    assert(s.subrange(i4, j4) =~= f2);
    assert(s.subrange(j4, i5) =~= a5);
    assert(s.subrange(i5, j5) =~= f3);
    assert(s.subrange(j5, s.len() as int) =~= a6);

    // The parser's scans stop exactly at the separators.
    assert(spec_matches_at(s, 0, a1));
    assert forall|k: int| i1 <= k < j1 implies is_dec_digit(s[k]) by {
        assert(s[k] == s.subrange(i1, j1)[k - i1]);
    }
    assert(s[j1] == a2[0]);
    assert(!is_dec_digit(','));
    lemma_digits_end_exact(s, i1, j1);
    assert(dec_value(s.subrange(i1, j1)) == m.pid);
    assert(spec_matches_at(s, j1, a2));
    if neg {
        assert(s[i2] == '-');
    } else {
        assert(s[i2] == dm[0]) by {
            assert(s[i2] == s.subrange(i2d, j2)[0]);
        }
        assert(is_dec_digit(dm[0]));
        assert(s[i2] != '-');
    }
    assert forall|k: int| i2d <= k < j2 implies is_dec_digit(s[k]) by {
        assert(s[k] == s.subrange(i2d, j2)[k - i2d]);
    }
    assert(s[j2] == a3[0]);
    lemma_digits_end_exact(s, i2d, j2);
    assert(dec_value(s.subrange(i2d, j2)) == mag);
    assert(spec_matches_at(s, j2, a3));
    assert forall|k: int| i3 <= k < j3 implies s[k] != '"' by {
        assert(s[k] == s.subrange(i3, j3)[k - i3]);
        assert(plain_json_char(f1[k - i3]));
    }
    assert(s[j3] == a4[0]);
    assert(a4[0] == '"');
    lemma_string_end_exact(s, i3, j3);
    assert(spec_matches_at(s, j3, a4));
    assert forall|k: int| i4 <= k < j4 implies s[k] != '"' by {
        assert(s[k] == s.subrange(i4, j4)[k - i4]);
        assert(plain_json_char(f2[k - i4]));
    }
    assert(s[j4] == a5[0]);
    assert(a5[0] == '"');
    lemma_string_end_exact(s, i4, j4);
    assert(spec_matches_at(s, j4, a5));
    assert forall|k: int| i5 <= k < j5 implies s[k] != '"' by {
        assert(s[k] == s.subrange(i5, j5)[k - i5]);
        assert(plain_json_char(f3[k - i5]));
    }
    assert(s[j5] == a6[0]);
    assert(a6[0] == '"');
    lemma_string_end_exact(s, i5, j5);
    assert(spec_matches_at(s, j5, a6));

    // The parsed record is the one encoded.
    assert(spec_parse_meta(s) matches Some(v) && v == m) by {
        assert(digits_end(s, i1) == j1);
        assert(digits_end(s, i2d) == j2);
        assert(string_end(s, i3) == j3);
        assert(string_end(s, i4) == j4);
        assert(string_end(s, i5) == j5);
        assert(d1.len() >= 1 && d1.len() <= 10);
        assert(dm.len() >= 1 && dm.len() <= 19);
        if neg {
            assert(mag <= 0x8000000000000000);
            assert(-(mag as int) == m.start_time);
        } else {
            assert(mag <= 0x7fffffffffffffff);
        }
        assert(s.subrange(i3, j3) == f1);
        assert(s.subrange(i4, j4) == f2);
        assert(s.subrange(i5, j5) == f3);
    }
}

/// Whether every character of `s` may stand unescaped in a JSON
/// string.
fn field_ok(s: &str) -> (r: bool)
    ensures
        r == plain_json_field(s@),
{
    let n = s.unicode_len();
    let mut i: usize = 0;
    while i < n
        invariant
            0 <= i <= n == s@.len(),
            forall|k: int| 0 <= k < i ==> plain_json_char(#[trigger] s@[k]),
        decreases n - i,
    {
        let c = s.get_char(i);
        let u = c as u32;
        if c == '"' || c == '\\' || u < 32 {
            return false;
        }
        i = i + 1;
    }
    true
}

/// Write the record in the codec's one shape, or refuse it when a
/// string field would need escaping.
pub fn encode_metadata(m: &DaemonMetadata) -> (r: Option<String>)
    ensures
        r is Some <==> encodable(m@),
        r matches Some(s) ==> s@ == encode_meta(m@),
{
    if !field_ok(m.protocol_version.as_str()) {
        return None;
    }
    if !field_ok(m.endpoint.as_str()) {
        return None;
    }
    if !field_ok(m.daemon_id.as_str()) {
        return None;
    }
    let mut out = String::from_str("{\"pid\":");
    out.append(crate::decimal::u64_to_decimal(m.pid as u64).as_str());
    out.append(",\"start_time\":");
    out.append(crate::decimal::i64_to_decimal(m.start_time).as_str());
    out.append(",\"protocol_version\":\"");
    out.append(m.protocol_version.as_str());
    out.append("\",\"endpoint\":\"");
    out.append(m.endpoint.as_str());
    out.append("\",\"daemon_id\":\"");
    out.append(m.daemon_id.as_str());
    out.append("\"}");
    proof {
        assert(out@ =~= encode_meta(m@));
    }
    Some(out)
}

/// Scan to the end of the digit run starting at `i`.
fn scan_digits(s: &str, i: usize) -> (r: usize)
    requires
        i <= s@.len(),
    ensures
        i <= r <= s@.len(),
        r == digits_end(s@, i as int),
        forall|k: int| i <= k < r ==> is_dec_digit(s@[k]),
{
    let n = s.unicode_len();
    let mut j: usize = i;
    while j < n
        invariant
            i <= j <= n == s@.len(),
            forall|k: int| i <= k < j ==> is_dec_digit(s@[k]),
        decreases n - j,
    {
        let c = s.get_char(j);
        let u = c as u32;
        if !(48 <= u && u <= 57) {
            proof {
                lemma_digits_end_exact(s@, i as int, j as int);
            }
            return j;
        }
        j = j + 1;
    }
    proof {
        lemma_digits_end_exact(s@, i as int, n as int);
    }
    n
}

/// Scan to the closing quote of the string value starting at `i`.
fn scan_string(s: &str, i: usize) -> (r: usize)
    requires
        i <= s@.len(),
    ensures
        i <= r <= s@.len(),
        r == string_end(s@, i as int),
{
    let n = s.unicode_len();
    let mut j: usize = i;
    while j < n
        invariant
            i <= j <= n == s@.len(),
            forall|k: int| i <= k < j ==> s@[k] != '"',
        decreases n - j,
    {
        let c = s.get_char(j);
        if c == '"' {
            proof {
                lemma_string_end_exact(s@, i as int, j as int);
            }
            return j;
        }
        j = j + 1;
    }
    proof {
        lemma_string_end_exact(s@, i as int, n as int);
    }
    n
}

/// Read a record from the codec's shape; `None` for any other input.
pub fn parse_metadata(s: &str) -> (r: Option<DaemonMetadata>)
    ensures
        spec_parse_meta(s@) is None ==> r is None,
        spec_parse_meta(s@) matches Some(v) ==> (r matches Some(m) && m@ == v),
{
    let n = s.unicode_len();
    if !str_matches_at(s, 0, "{\"pid\":") {
        return None;
    }
    let i1 = "{\"pid\":".unicode_len();
    let j1 = scan_digits(s, i1);
    if j1 == i1 || j1 - i1 > 19 {
        return None;
    }
    let pid64 = parse_dec_run(s, i1, j1);
    proof {
        assert(pid64 == dec_value(s@.subrange(i1 as int, j1 as int)));
    }
    if pid64 > 4294967295 {
        return None;
    }
    if !str_matches_at(s, j1, ",\"start_time\":") {
        return None;
    }
    let i2 = j1 + ",\"start_time\":".unicode_len();
    let neg = i2 < n && s.get_char(i2) == '-';
    let i2d = if neg {
        i2 + 1
    } else {
        i2
    };
    let j2 = scan_digits(s, i2d);
    if j2 == i2d || j2 - i2d > 19 {
        return None;
    }
    let mag = parse_dec_run(s, i2d, j2);
    if neg {
        if mag > 9223372036854775808 {
            return None;
        }
    } else {
        if mag > 9223372036854775807 {
            return None;
        }
    }
    if !str_matches_at(s, j2, ",\"protocol_version\":\"") {
        return None;
    }
    let start_time: i64 = if neg {
        if mag == 9223372036854775808 {
            -9223372036854775807i64 - 1
        } else {
            -(mag as i64)
        }
    } else {
        mag as i64
    };
    let i3 = j2 + ",\"protocol_version\":\"".unicode_len();
    let j3 = scan_string(s, i3);
    if !str_matches_at(s, j3, "\",\"endpoint\":\"") {
        return None;
    }
    let i4 = j3 + "\",\"endpoint\":\"".unicode_len();
    let j4 = scan_string(s, i4);
    if !str_matches_at(s, j4, "\",\"daemon_id\":\"") {
        return None;
    }
    let i5 = j4 + "\",\"daemon_id\":\"".unicode_len();
    let j5 = scan_string(s, i5);
    if !str_matches_at(s, j5, "\"}") {
        return None;
    }
    if n - j5 != 2 {
        return None;
    }
    let protocol_version = String::from_str(s.substring_char(i3, j3));
    let endpoint = String::from_str(s.substring_char(i4, j4));
    let daemon_id = String::from_str(s.substring_char(i5, j5));
    Some(
        DaemonMetadata { pid: pid64 as u32, start_time, protocol_version, endpoint, daemon_id },
    )
}

} // verus!
