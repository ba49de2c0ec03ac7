//! Request-line parsing: take the first line of the raw bytes read from the
//! socket, split it on ASCII whitespace, and interpret the first two tokens as
//! method and path.

use vstd::prelude::*;
use crate::ascii::{is_ascii_ws, is_ws_byte};

verus! {

/// The index of the first line feed at or after `i`, or the length of `data`
/// if there is none.
pub open spec fn newline_at(data: Seq<u8>, i: int) -> int
    decreases data.len() - i,
{
    if i < 0 || i >= data.len() {
        data.len() as int
    } else if data[i] == 10 {
        i
    } else {
        newline_at(data, i + 1)
    }
}

/// The first line of the raw request: everything before the first line feed,
/// with a carriage return directly before that line feed stripped. Without a
/// line feed, the whole input is the line.
pub open spec fn spec_first_line(data: Seq<u8>) -> Seq<u8> {
    let e = newline_at(data, 0);
    let line = data.subrange(0, e);
    if e < data.len() && line.len() > 0 && line[line.len() - 1] == 13 {
        line.drop_last()
    } else {
        line
    }
}

/// Copies out the first line of `data`.
pub fn first_line(data: &Vec<u8>) -> (line: Vec<u8>)
    ensures
        line@ == spec_first_line(data@),
{
    let mut e: usize = 0;
    while e < data.len() && data[e] != 10
        invariant
            0 <= e <= data@.len(),
            newline_at(data@, 0) == newline_at(data@, e as int),
        decreases data@.len() - e,
    {
        e += 1;
    }
    assert(newline_at(data@, 0) == e as int);
    let found_lf: bool = e < data.len();
    let end: usize = if found_lf && e > 0 && data[e - 1] == 13 {
        e - 1
    } else {
        e
    };
    let mut line: Vec<u8> = Vec::new();
    let mut i: usize = 0;
    while i < end
        invariant
            0 <= i <= end <= data@.len(),
            line@ == data@.subrange(0, i as int),
        decreases end - i,
    {
        line.push(data[i]);
        assert(line@ =~= data@.subrange(0, i + 1));
        i += 1;
    }
    proof {
        let whole = data@.subrange(0, newline_at(data@, 0));
        if found_lf && e > 0 && data@[e - 1] == 13 {
            assert(line@ =~= whole.drop_last());
        } else {
            assert(line@ =~= spec_first_line(data@));
        }
    }
    line
}

/// The tokens of `line` from position `i` on, given that the bytes of an
/// unfinished token read so far are `cur`: maximal runs of non-whitespace
/// bytes, in order, empty runs discarded.
pub open spec fn tokens_from(line: Seq<u8>, i: int, cur: Seq<u8>) -> Seq<Seq<u8>>
    decreases line.len() - i,
{
    if i < 0 || i >= line.len() {
        if cur.len() == 0 {
            Seq::empty()
        } else {
            seq![cur]
        }
    } else if is_ascii_ws(line[i]) {
        if cur.len() == 0 {
            tokens_from(line, i + 1, Seq::empty())
        } else {
            seq![cur] + tokens_from(line, i + 1, Seq::empty())
        }
    } else {
        tokens_from(line, i + 1, cur.push(line[i]))
    }
}

/// The whitespace-separated tokens of `line`.
pub open spec fn spec_tokens(line: Seq<u8>) -> Seq<Seq<u8>> {
    tokens_from(line, 0, Seq::empty())
}

/// Splits `line` on ASCII whitespace, discarding empty tokens.
pub fn tokenize(line: &Vec<u8>) -> (toks: Vec<Vec<u8>>)
    ensures
        toks.deep_view() == spec_tokens(line@),
{
    let mut toks: Vec<Vec<u8>> = Vec::new();
    let mut cur: Vec<u8> = Vec::new();
    let mut i: usize = 0;
    while i < line.len()
        invariant
            0 <= i <= line@.len(),
            spec_tokens(line@) == toks.deep_view() + tokens_from(line@, i as int, cur@),
        decreases line@.len() - i,
    {
        let ghost prev_toks = toks.deep_view();
        let ghost prev_cur = cur@;
        let b = line[i];
        if is_ws_byte(b) {
            if cur.len() > 0 {
                toks.push(cur);
                cur = Vec::new();
                proof {
                    assert(cur@ =~= Seq::<u8>::empty());
                    assert(toks.deep_view() =~~= prev_toks.push(prev_cur));
                    assert(tokens_from(line@, i as int, prev_cur) =~~= seq![prev_cur]
                        + tokens_from(line@, i + 1, cur@));
                    assert(prev_toks + (seq![prev_cur] + tokens_from(line@, i + 1, cur@))
                        =~~= toks.deep_view() + tokens_from(line@, i + 1, cur@));
                }
            } else {
                assert(cur@ =~= Seq::<u8>::empty());
                assert(tokens_from(line@, i as int, cur@) == tokens_from(line@, i + 1, cur@));
            }
        } else {
            cur.push(b);
            assert(cur@ == prev_cur.push(line@[i as int]));
        }
        i += 1;
    }
    if cur.len() > 0 {
        let ghost prev_toks = toks.deep_view();
        let ghost prev_cur = cur@;
        toks.push(cur);
        proof {
            assert(toks.deep_view() =~~= prev_toks.push(prev_cur));
            assert(prev_toks + seq![prev_cur] =~~= prev_toks.push(prev_cur));
        }
    } else {
        assert(toks.deep_view() + tokens_from(line@, line@.len() as int, cur@) =~~= toks.deep_view());
    }
    toks
}

/// A token as the splitter produces it: non-empty, with no ASCII whitespace
/// inside.
pub open spec fn token_shaped(t: Seq<u8>) -> bool {
    t.len() > 0 && forall|k: int| 0 <= k < t.len() ==> !is_ascii_ws(t[k])
}

proof fn lemma_tokens_from_shaped(line: Seq<u8>, i: int, cur: Seq<u8>)
    requires
        forall|k: int| 0 <= k < cur.len() ==> !is_ascii_ws(cur[k]),
    ensures
        forall|j: int|
            0 <= j < tokens_from(line, i, cur).len() ==> token_shaped(
                #[trigger] tokens_from(line, i, cur)[j],
            ),
    decreases line.len() - i,
{
    if i < 0 || i >= line.len() {
        if cur.len() > 0 {
            assert(tokens_from(line, i, cur) =~= seq![cur]);
            assert(tokens_from(line, i, cur)[0] == cur);
        }
    } else if is_ascii_ws(line[i]) {
        lemma_tokens_from_shaped(line, i + 1, Seq::empty());
        if cur.len() > 0 {
            assert forall|j: int| 0 <= j < tokens_from(line, i, cur).len() implies token_shaped(
                tokens_from(line, i, cur)[j],
            ) by {
                if j == 0 {
                    assert(tokens_from(line, i, cur)[j] == cur);
                } else {
                    assert(tokens_from(line, i, cur)[j] == tokens_from(line, i + 1, Seq::empty())[
                        j - 1
                    ]);
                }
            }
        }
    } else {
        assert(forall|k: int|
            0 <= k < cur.push(line[i]).len() ==> !is_ascii_ws(cur.push(line[i])[k]));
        lemma_tokens_from_shaped(line, i + 1, cur.push(line[i]));
        assert(tokens_from(line, i, cur) == tokens_from(line, i + 1, cur.push(line[i])));
    }
}

/// Every token the splitter returns is non-empty and free of ASCII
/// whitespace: splitting on whitespace discards the empty tokens.
pub proof fn lemma_tokens_wellformed(line: Seq<u8>)
    ensures
        forall|j: int|
            0 <= j < spec_tokens(line).len() ==> token_shaped(#[trigger] spec_tokens(line)[j]),
{
    lemma_tokens_from_shaped(line, 0, Seq::empty());
}

/// The tokens of the raw request's first line.
pub open spec fn spec_request_tokens(data: Seq<u8>) -> Seq<Seq<u8>> {
    spec_tokens(spec_first_line(data))
}

/// Extracts the whitespace-separated tokens of the first line of a raw
/// request buffer.
pub fn request_tokens(data: &Vec<u8>) -> (toks: Vec<Vec<u8>>)
    ensures
        toks.deep_view() == spec_request_tokens(data@),
{
    let line = first_line(data);
    tokenize(&line)
}

} // verus!
