//! The structured data payload: encoding a record sequence as a JSON array
//! of objects with the fields `rank`, `artist` and `song`.

use vstd::prelude::*;
use crate::chart::Song;

verus! {

/// The character that stands for the digit `d`, in decimal or hexadecimal.
pub open spec fn digit_char(d: int) -> char {
    if d == 0 {
        '0'
    } else if d == 1 {
        '1'
    } else if d == 2 {
        '2'
    } else if d == 3 {
        '3'
    } else if d == 4 {
        '4'
    } else if d == 5 {
        '5'
    } else if d == 6 {
        '6'
    } else if d == 7 {
        '7'
    } else if d == 8 {
        '8'
    } else if d == 9 {
        '9'
    } else if d == 10 {
        'a'
    } else if d == 11 {
        'b'
    } else if d == 12 {
        'c'
    } else if d == 13 {
        'd'
    } else if d == 14 {
        'e'
    } else {
        'f'
    }
}

fn exec_digit_char(d: u32) -> (c: char)
    requires
        d < 16,
    ensures
        c == digit_char(d as int),
{
    if d == 0 {
        '0'
    } else if d == 1 {
        '1'
    } else if d == 2 {
        '2'
    } else if d == 3 {
        '3'
    } else if d == 4 {
        '4'
    } else if d == 5 {
        '5'
    } else if d == 6 {
        '6'
    } else if d == 7 {
        '7'
    } else if d == 8 {
        '8'
    } else if d == 9 {
        '9'
    } else if d == 10 {
        'a'
    } else if d == 11 {
        'b'
    } else if d == 12 {
        'c'
    } else if d == 13 {
        'd'
    } else if d == 14 {
        'e'
    } else {
        'f'
    }
}

/// The decimal numeral of `n`, most significant digit first.
pub open spec fn dec_spec(n: int) -> Seq<char>
    decreases n,
{
    if n < 10 {
        seq![digit_char(n)]
    } else {
        dec_spec(n / 10).push(digit_char(n % 10))
    }
}

/// How one character stands inside a JSON string literal: quote and
/// backslash are escaped, control characters take the `\u00XX` form, and
/// every other character stands as itself.
pub open spec fn escape_char(c: char) -> Seq<char> {
    if c == '"' {
        "\\\""@
    } else if c == '\\' {
        "\\\\"@
    } else if (c as u32) < 32 {
        "\\u00"@ + seq![digit_char((c as u32) as int / 16), digit_char((c as u32) as int % 16)]
    } else {
        seq![c]
    }
}

/// A JSON string literal's body: every character escaped, in order.
pub open spec fn escape_spec(s: Seq<char>) -> Seq<char>
    decreases s.len(),
{
    if s.len() == 0 {
        Seq::empty()
    } else {
        escape_spec(s.drop_last()) + escape_char(s.last())
    }
}

/// The JSON object for one record, with the fields `rank`, `artist` and
/// `song` in that order.
pub open spec fn record_spec(s: Song) -> Seq<char> {
    "{\"rank\":"@ + dec_spec(s.rank as int) + ",\"artist\":\""@ + escape_spec(s.artist@)
        + "\",\"song\":\""@ + escape_spec(s.song@) + "\"}"@
}

/// The payload's items from position `i` on, comma-separated.
pub open spec fn items_spec(songs: Seq<Song>, i: int) -> Seq<char>
    decreases songs.len() - i,
{
    if i < 0 || i >= songs.len() {
        Seq::empty()
    } else if i == songs.len() - 1 {
        record_spec(songs[i])
    } else {
        record_spec(songs[i]) + ","@ + items_spec(songs, i + 1)
    }
}

/// The full payload: a JSON array holding the records in order.
pub open spec fn encode_spec(songs: Seq<Song>) -> Seq<char> {
    "["@ + items_spec(songs, 0) + "]"@
}

/// Relies on String::push: appends the single character `c`.
#[verifier::external_body]
fn push_char(out: &mut String, c: char)
    ensures
        final(out)@ == old(out)@.push(c),
{
    out.push(c);
}

/// Appends the escaped form of the one character `c`.
fn push_escaped_char(out: &mut String, c: char)
    ensures
        final(out)@ == old(out)@ + escape_char(c),
{
    if c == '"' {
        out.append("\\\"");
    } else if c == '\\' {
        out.append("\\\\");
    } else {
        let u = c as u32;
        if u < 32 {
            out.append("\\u00");
            let hi = exec_digit_char(u / 16);
            let lo = exec_digit_char(u % 16);
            push_char(out, hi);
            push_char(out, lo);
            proof {
                assert(out@ =~= old(out)@ + escape_char(c));
            }
        } else {
            push_char(out, c);
            proof {
                assert(out@ =~= old(out)@ + escape_char(c));
            }
        }
    }
}

/// Appends the escaped form of `s`.
fn push_escaped(out: &mut String, s: &str)
    ensures
        final(out)@ == old(out)@ + escape_spec(s@),
{
    let n = s.unicode_len();
    let mut i: usize = 0;
    proof {
        assert(s@.take(0) =~= Seq::<char>::empty());
        assert(old(out)@ + escape_spec(s@.take(0)) =~= old(out)@);
    }
    while i < n
        invariant
            n == s@.len(),
            i <= n,
            out@ == old(out)@ + escape_spec(s@.take(i as int)),
        decreases n - i,
    {
        let c = s.get_char(i);
        push_escaped_char(out, c);
        proof {
            let t = s@.take(i + 1);
            assert(t.drop_last() =~= s@.take(i as int));
            assert(t.last() == c);
            assert(out@ =~= old(out)@ + escape_spec(t));
        }
        i = i + 1;
    }
    proof {
        assert(s@.take(n as int) =~= s@);
    }
}

/// Appends the decimal numeral of `n`.
fn push_dec(out: &mut String, n: usize)
    ensures
        final(out)@ == old(out)@ + dec_spec(n as int),
    decreases n,
{
    if n >= 10 {
        push_dec(out, n / 10);
    }
    let d = (n % 10) as u32;
    let c = exec_digit_char(d);
    push_char(out, c);
    proof {
        if n >= 10 {
            assert(out@ =~= old(out)@ + dec_spec(n as int));
        } else {
            assert(old(out)@.push(digit_char(n as int)) =~= old(out)@ + seq![digit_char(n as int)]);
        }
    }
}

/// Appends the JSON object for one record.
fn push_record(out: &mut String, s: &Song)
    ensures
        final(out)@ == old(out)@ + record_spec(*s),
{
    out.append("{\"rank\":");
    push_dec(out, s.rank);
    out.append(",\"artist\":\"");
    push_escaped(out, s.artist.as_str());
    out.append("\",\"song\":\"");
    push_escaped(out, s.song.as_str());
    out.append("\"}");
    proof {
        assert(out@ =~= old(out)@ + record_spec(*s));
    }
}

/// Appends the payload's items from position `i` on.
fn push_items(out: &mut String, songs: &Vec<Song>, i: usize)
    requires
        i <= songs@.len(),
    ensures
        final(out)@ == old(out)@ + items_spec(songs@, i as int),
    decreases songs@.len() - i,
{
    if i < songs.len() {
        push_record(out, &songs[i]);
        if i + 1 < songs.len() {
            out.append(",");
            push_items(out, songs, i + 1);
            proof {
                assert(out@ =~= old(out)@ + items_spec(songs@, i as int));
            }
        }
    } else {
        proof {
            assert(old(out)@ + items_spec(songs@, i as int) =~= old(out)@);
        }
    }
}

/// Encodes the record sequence as the structured data payload: a JSON array
/// of objects with the fields `rank`, `artist` and `song`, in record order.
pub fn encode_records(songs: &Vec<Song>) -> (r: String)
    ensures
        r@ == encode_spec(songs@),
{
    let mut out = String::new();
    out.append("[");
    push_items(&mut out, songs, 0);
    out.append("]");
    proof {
        assert(out@ =~= encode_spec(songs@));
    }
    out
}

} // verus!
