//! Command interpretation: mapping raw request bytes to a discrete command.
//!
//! The two control tokens are matched as raw byte substrings anywhere in the
//! received bytes, case-sensitively, with the raise token taking priority
//! over the lower token; a request holding neither token means stop.

use vstd::prelude::*;

verus! {

/// A discrete actuator command, derived from one request chunk.
#[derive(Clone, Copy, Debug, PartialEq, Eq, Structural)]
pub enum Command {
    Raise,
    Lower,
    Stop,
}

/// The bytes of `"?tableup"`, the token that commands a raise.
pub open spec fn raise_token() -> Seq<u8> {
    seq![63u8, 116u8, 97u8, 98u8, 108u8, 101u8, 117u8, 112u8]
}

/// The bytes of `"?tabledown"`, the token that commands a lower.
pub open spec fn lower_token() -> Seq<u8> {
    seq![63u8, 116u8, 97u8, 98u8, 108u8, 101u8, 100u8, 111u8, 119u8, 110u8]
}

/// The needle `n` occurs in `h` starting at position `i`.
pub open spec fn match_at(h: Seq<u8>, n: Seq<u8>, i: int) -> bool {
    &&& 0 <= i
    &&& i + n.len() <= h.len()
    &&& forall|j: int| 0 <= j < n.len() ==> h[i + j] == n[j]
}

/// The needle `n` occurs somewhere in `h`.
pub open spec fn contains_seq(h: Seq<u8>, n: Seq<u8>) -> bool {
    exists|i: int| match_at(h, n, i)
}

/// The command a request chunk denotes: the raise token anywhere in the
/// bytes commands a raise; otherwise the lower token anywhere commands a
/// lower; otherwise the chunk commands a stop.
pub open spec fn command_of(s: Seq<u8>) -> Command {
    if contains_seq(s, raise_token()) {
        Command::Raise
    } else if contains_seq(s, lower_token()) {
        Command::Lower
    } else {
        Command::Stop
    }
}

fn match_at_exec(h: &[u8], n: &[u8], i: usize) -> (r: bool)
    requires
        i + n@.len() <= h@.len(),
    ensures
        r == match_at(h@, n@, i as int),
{
    let h_len: usize = h.len();
    let n_len: usize = n.len();
    let mut j: usize = 0;
    while j < n_len
        invariant
            n_len == n@.len(),
            i + n@.len() <= h@.len(),
            h_len == h@.len(),
            j <= n@.len(),
            forall|k: int| 0 <= k < j ==> h@[i + k] == n@[k],
        decreases n@.len() - j,
    {
        if h[i + j] != n[j] {
            return false;
        }
        j = j + 1;
    }
    true
}

/// Whether the needle `n` occurs as a contiguous byte substring of `h`.
pub fn contains_token(h: &[u8], n: &[u8]) -> (r: bool)
    ensures
        r == contains_seq(h@, n@),
{
    let h_len: usize = h.len();
    let n_len: usize = n.len();
    if n_len > h_len {
        return false;
    }
    let last: usize = h_len - n_len;
    let mut i: usize = 0;
    while i <= last
        invariant
            h_len == h@.len(),
            n_len == n@.len(),
            n@.len() <= h@.len(),
            last == h@.len() - n@.len(),
            i <= last + 1,
            forall|k: int| 0 <= k < i ==> !match_at(h@, n@, k),
        decreases last + 1 - i,
    {
        if match_at_exec(h, n, i) {
            return true;
        }
        i = i + 1;
    }
    false
}

fn raise_token_bytes() -> (v: Vec<u8>)
    ensures
        v@ == raise_token(),
{
    let mut v: Vec<u8> = Vec::new();
    v.push(63);
    v.push(116);
    v.push(97);
    v.push(98);
    v.push(108);
    v.push(101);
    v.push(117);
    v.push(112);
    proof {
        assert(v@ =~= raise_token());
    }
    v
}

fn lower_token_bytes() -> (v: Vec<u8>)
    ensures
        v@ == lower_token(),
{
    let mut v: Vec<u8> = Vec::new();
    v.push(63);
    v.push(116);
    v.push(97);
    v.push(98);
    v.push(108);
    v.push(101);
    v.push(100);
    v.push(111);
    v.push(119);
    v.push(110);
    proof {
        assert(v@ =~= lower_token());
    }
    v
}

/// Interpret one request chunk: raise wins over lower; anything without a
/// recognized token, the empty chunk included, commands a stop.
pub fn interpret(data: &[u8]) -> (c: Command)
    ensures
        c == command_of(data@),
{
    let raise = raise_token_bytes();
    if contains_token(data, raise.as_slice()) {
        return Command::Raise;
    }
    let lower = lower_token_bytes();
    if contains_token(data, lower.as_slice()) {
        return Command::Lower;
    }
    Command::Stop
}

} // verus!
