//! The line by which the backend announces the port it listens on.
//!
//! The backend prints, on its standard output, one line that holds the word
//! `Running` and the loopback address `127.0.0.1:` directly followed by the
//! port and then by white space. This format is shared with the backend and
//! is matched byte for byte.

use vstd::prelude::*;
use vstd::slice::slice_subrange;
use vstd::slice::slice_to_vec;
use crate::text::all_digits;
use crate::text::byte_is_digit;
use crate::text::byte_is_space;
use crate::text::is_digit;
use crate::text::is_space;

verus! {

/// The bytes of `Running`.
pub open spec fn running_marker() -> Seq<u8> {
    seq![0x52u8, 0x75u8, 0x6eu8, 0x6eu8, 0x69u8, 0x6eu8, 0x67u8]
}

/// The bytes of `127.0.0.1:`.
pub open spec fn address_marker() -> Seq<u8> {
    seq![0x31u8, 0x32u8, 0x37u8, 0x2eu8, 0x30u8, 0x2eu8, 0x30u8, 0x2eu8, 0x31u8, 0x3au8]
}

/// `needle` stands in `hay` at index `at`.
pub open spec fn occurs_at(hay: Seq<u8>, needle: Seq<u8>, at: int) -> bool {
    &&& 0 <= at
    &&& at + needle.len() <= hay.len()
    &&& hay.subrange(at, at + needle.len()) == needle
}

/// `needle` stands somewhere in `hay`.
pub open spec fn occurs(hay: Seq<u8>, needle: Seq<u8>) -> bool {
    exists|at: int| occurs_at(hay, needle, at)
}

/// `at` is the leftmost index at which `needle` stands in `hay`.
pub open spec fn first_at(hay: Seq<u8>, needle: Seq<u8>, at: int) -> bool {
    &&& occurs_at(hay, needle, at)
    &&& forall|j: int| 0 <= j < at ==> !occurs_at(hay, needle, j)
}

/// The leftmost index at which `needle` stands in `hay`, where it stands there
/// at all.
pub open spec fn first_index(hay: Seq<u8>, needle: Seq<u8>) -> int {
    choose|at: int| first_at(hay, needle, at)
}

/// The length of the token that begins at `from`: the bytes up to the next
/// white space, or up to the end of the line where none follows.
pub open spec fn token_len(line: Seq<u8>, from: int) -> nat
    decreases line.len() - from,
{
    if from < 0 || from >= line.len() || is_space(line[from]) {
        0
    } else {
        1 + token_len(line, from + 1)
    }
}

/// The token that follows the first address marker of `line`.
pub open spec fn port_token(line: Seq<u8>) -> Seq<u8> {
    let start = first_index(line, address_marker()) + address_marker().len();
    line.subrange(start, start + token_len(line, start))
}

/// The port that `line` announces, if it announces one.
///
/// A line announces a port when it holds both markers and the token after the
/// first address marker is a run of one or more digits that white space ends.
/// A line whose token is empty, holds anything but digits, or runs to the end
/// of the line announces nothing.
pub open spec fn announced_port(line: Seq<u8>) -> Option<Seq<u8>> {
    if occurs(line, running_marker()) && occurs(line, address_marker()) {
        let start = first_index(line, address_marker()) + address_marker().len();
        let port = port_token(line);
        if port.len() > 0 && all_digits(port) && start + port.len() < line.len() {
            Some(port)
        } else {
            None
        }
    } else {
        None
    }
}

/// Only one index is the leftmost at which `needle` stands.
pub proof fn lemma_first_index_is(hay: Seq<u8>, needle: Seq<u8>, at: int)
    requires
        first_at(hay, needle, at),
    ensures
        first_index(hay, needle) == at,
        occurs(hay, needle),
{
    let chosen = first_index(hay, needle);
    assert(first_at(hay, needle, chosen));
    if chosen < at {
        assert(!occurs_at(hay, needle, chosen));
    }
    if at < chosen {
        assert(!occurs_at(hay, needle, at));
    }
}

/// A run of `count` bytes without white space, with white space or the end of
/// the line behind it, is the token that begins at `from`.
pub proof fn lemma_token_len_is(line: Seq<u8>, from: int, count: nat)
    requires
        0 <= from,
        from + count <= line.len(),
        forall|j: int| from <= j < from + count ==> !is_space(#[trigger] line[j]),
        from + count == line.len() || is_space(line[from + count]),
    ensures
        token_len(line, from) == count,
    decreases count,
{
    if count > 0 {
        assert(!is_space(line[from]));
        lemma_token_len_is(line, from + 1, (count - 1) as nat);
    }
}

/// A token ends within its line.
pub proof fn lemma_token_within_line(line: Seq<u8>, from: int)
    requires
        0 <= from <= line.len(),
    ensures
        from + token_len(line, from) <= line.len(),
    decreases line.len() - from,
{
    if from < line.len() && !is_space(line[from]) {
        lemma_token_within_line(line, from + 1);
    }
}

/// A run of `count` bytes without white space is part of the token that
/// begins at `from`.
pub proof fn lemma_token_len_at_least(line: Seq<u8>, from: int, count: nat)
    requires
        0 <= from,
        from + count <= line.len(),
        forall|j: int| from <= j < from + count ==> !is_space(#[trigger] line[j]),
    ensures
        token_len(line, from) >= count,
    decreases count,
{
    if count > 0 {
        assert(!is_space(line[from]));
        lemma_token_len_at_least(line, from + 1, (count - 1) as nat);
    }
}

/// An announced port is a run of one or more digits.
pub proof fn lemma_announced_port_is_numeric(line: Seq<u8>)
    ensures
        announced_port(line) matches Some(port) ==> port.len() > 0 && all_digits(port),
{
}

/// Every line of the agreed format yields its port, exactly: where `Running`
/// stands in the line, and the first `127.0.0.1:` is followed by `count`
/// digits and then by white space, the announced port is those digits, up to
/// and without the white space.
pub proof fn lemma_well_formed_line_announces(line: Seq<u8>, at: int, count: nat)
    requires
        occurs(line, running_marker()),
        first_at(line, address_marker(), at),
        count > 0,
        at + address_marker().len() + count < line.len(),
        all_digits(
            line.subrange(at + address_marker().len(), at + address_marker().len() + count),
        ),
        is_space(line[at + address_marker().len() + count]),
    ensures
        announced_port(line) == Some(
            line.subrange(at + address_marker().len(), at + address_marker().len() + count),
        ),
{
    let start = at + address_marker().len();
    let port = line.subrange(start, start + count);
    lemma_first_index_is(line, address_marker(), at);
    assert forall|j: int| start <= j < start + count implies !is_space(#[trigger] line[j]) by {
        assert(line[j] == port[j - start]);
        assert(is_digit(port[j - start]));
    }
    lemma_token_len_is(line, start, count);
}

/// A line that holds the address marker without a proper port announces
/// nothing: where the port is missing, where the token holds something other
/// than a digit, and where no white space ends the token.
pub proof fn lemma_malformed_line_announces_nothing(line: Seq<u8>, at: int)
    requires
        first_at(line, address_marker(), at),
        ({
            let start = at + address_marker().len();
            ||| start == line.len()
            ||| is_space(line[start])
            ||| exists|k: int|
                start <= k < line.len() && !is_digit(line[k]) && forall|j: int|
                    start <= j <= k ==> !is_space(#[trigger] line[j])
            ||| forall|j: int| start <= j < line.len() ==> !is_space(#[trigger] line[j])
        }),
    ensures
        announced_port(line) is None,
{
    let start = at + address_marker().len();
    lemma_first_index_is(line, address_marker(), at);
    let port = port_token(line);
    if start == line.len() || is_space(line[start]) {
        assert(token_len(line, start) == 0);
    } else if forall|j: int| start <= j < line.len() ==> !is_space(#[trigger] line[j]) {
        lemma_token_len_is(line, start, (line.len() - start) as nat);
    } else {
        let k = choose|k: int|
            start <= k < line.len() && !is_digit(line[k]) && forall|j: int|
                start <= j <= k ==> !is_space(#[trigger] line[j]);
        lemma_token_len_at_least(line, start, (k + 1 - start) as nat);
        lemma_token_within_line(line, start);
        assert(port[k - start] == line[k]);
    }
}

/// Tells whether `needle` stands in `hay` at index `at`.
pub fn stands_at(hay: &[u8], needle: &[u8], at: usize) -> (found: bool)
    ensures
        found == occurs_at(hay@, needle@, at as int),
{
    if needle.len() > hay.len() || at > hay.len() - needle.len() {
        return false;
    }
    let mut k: usize = 0;
    while k < needle.len()
        invariant
            0 <= k <= needle.len(),
            at + needle.len() <= hay.len(),
            forall|j: int| 0 <= j < k ==> hay@[at + j] == needle@[j],
        decreases needle.len() - k,
    {
        if hay[at + k] != needle[k] {
            assert(hay@.subrange(at as int, at + needle@.len())[k as int] != needle@[k as int]);
            return false;
        }
        k += 1;
    }
    assert(hay@.subrange(at as int, at + needle@.len()) =~= needle@);
    true
}

/// Finds the leftmost place at which `needle` stands in `hay`.
pub fn find(hay: &[u8], needle: &[u8]) -> (place: Option<usize>)
    ensures
        match place {
            Some(at) => first_at(hay@, needle@, at as int),
            None => !occurs(hay@, needle@),
        },
{
    if needle.len() > hay.len() {
        return None;
    }
    let last: usize = hay.len() - needle.len();
    let mut at: usize = 0;
    loop
        invariant
            0 <= at <= last,
            last == hay.len() - needle.len(),
            forall|j: int| 0 <= j < at ==> !occurs_at(hay@, needle@, j),
        decreases last - at,
    {
        if stands_at(hay, needle, at) {
            return Some(at);
        }
        if at == last {
            return None;
        }
        at += 1;
    }
}

/// Reads the port that `line` announces.
pub fn parse_announcement(line: &[u8]) -> (port: Option<Vec<u8>>)
    ensures
        match port {
            Some(digits) => announced_port(line@) == Some(digits@) && digits@.len() > 0
                && all_digits(digits@),
            None => announced_port(line@) is None,
        },
{
    let running: [u8; 7] = [0x52, 0x75, 0x6e, 0x6e, 0x69, 0x6e, 0x67];
    let address: [u8; 10] = [0x31, 0x32, 0x37, 0x2e, 0x30, 0x2e, 0x30, 0x2e, 0x31, 0x3a];
    assert(running@ =~= running_marker());
    assert(address@ =~= address_marker());
    if find(line, running.as_slice()).is_none() {
        return None;
    }
    match find(line, address.as_slice()) {
        None => None,
        Some(at) => {
            proof {
                lemma_first_index_is(line@, address_marker(), at as int);
                assert(occurs_at(line@, address_marker(), at as int));
                assert(address_marker().len() == 10);
            }
            let len: usize = line.len();
            let start: usize = at + 10;
            let mut end: usize = start;
            let mut numeric = true;
            while end < len && !byte_is_space(line[end])
                invariant
                    start <= end <= len,
                    len == line@.len(),
                    forall|j: int| start <= j < end ==> !is_space(#[trigger] line@[j]),
                    numeric == all_digits(line@.subrange(start as int, end as int)),
                decreases len - end,
            {
                let digit = byte_is_digit(line[end]);
                proof {
                    let shorter = line@.subrange(start as int, end as int);
                    let longer = line@.subrange(start as int, end + 1);
                    assert(longer =~= shorter.push(line@[end as int]));
                    if all_digits(longer) {
                        assert forall|i: int| 0 <= i < shorter.len() implies is_digit(
                            #[trigger] shorter[i],
                        ) by {
                            assert(shorter[i] == longer[i]);
                        }
                        assert(longer[end - start] == line@[end as int]);
                    }
                }
                numeric = numeric && digit;
                end += 1;
            }
            proof {
                lemma_token_len_is(line@, start as int, (end - start) as nat);
            }
            if end > start && numeric && end < len {
                Some(slice_to_vec(slice_subrange(line, start, end)))
            } else {
                None
            }
        },
    }
}

} // verus!
