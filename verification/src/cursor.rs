use vstd::prelude::*;

use crate::err::{ErrKind, ParseErr};

verus! {

/// Outcome of a specification-level read: the decoded value together with
/// the position just past it, or the kind of failure. Every executable read
/// is proved to agree with one of these.
pub enum PRes<T> {
    POk(T, int),
    PFail(ErrKind),
}

/// Big-endian composition of two bytes.
pub open spec fn be16(hi: u8, lo: u8) -> u16 {
    (256 * (hi as int) + (lo as int)) as u16
}

/// Big-endian composition of four bytes.
pub open spec fn be32(b0: u8, b1: u8, b2: u8, b3: u8) -> u32 {
    (16777216 * (b0 as int) + 65536 * (b1 as int) + 256 * (b2 as int) + (b3 as int)) as u32
}

/// Read one byte at position `i`.
pub open spec fn sp_u8(s: Seq<u8>, i: int) -> PRes<u8> {
    if 0 <= i && i + 1 <= s.len() {
        PRes::POk(s[i], i + 1)
    } else {
        PRes::PFail(ErrKind::Truncated)
    }
}

/// Read a big-endian 16-bit integer at position `i`.
pub open spec fn sp_u16(s: Seq<u8>, i: int) -> PRes<u16> {
    if 0 <= i && i + 2 <= s.len() {
        PRes::POk(be16(s[i], s[i + 1]), i + 2)
    } else {
        PRes::PFail(ErrKind::Truncated)
    }
}

/// Read a big-endian 32-bit integer at position `i`.
pub open spec fn sp_u32(s: Seq<u8>, i: int) -> PRes<u32> {
    if 0 <= i && i + 4 <= s.len() {
        PRes::POk(be32(s[i], s[i + 1], s[i + 2], s[i + 3]), i + 4)
    } else {
        PRes::PFail(ErrKind::Truncated)
    }
}

/// Read `n` raw bytes at position `i`.
pub open spec fn sp_take(s: Seq<u8>, i: int, n: int) -> PRes<Seq<u8>> {
    if 0 <= i && 0 <= n && i + n <= s.len() {
        PRes::POk(s.subrange(i, i + n), i + n)
    } else {
        PRes::PFail(ErrKind::Truncated)
    }
}

/// Prefix an already-decoded run of items onto the outcome of decoding the
/// rest of the run.
pub open spec fn compose_run<T>(prefix: Seq<T>, rest: PRes<Seq<T>>) -> PRes<Seq<T>> {
    match rest {
        PRes::POk(v, e) => PRes::POk(prefix + v, e),
        PRes::PFail(k) => PRes::PFail(k),
    }
}

/// Prefixing distributes over run composition.
pub proof fn lemma_compose_run_assoc<T>(a: Seq<T>, b: Seq<T>, r: PRes<Seq<T>>)
    ensures
        compose_run(a + b, r) == compose_run(a, compose_run(b, r)),
{
    match r {
        PRes::POk(v, e) => {
            assert((a + b) + v =~= a + (b + v));
        },
        PRes::PFail(_) => {},
    }
}

/// Composing with an empty prefix changes nothing.
pub proof fn lemma_compose_run_nil<T>(r: PRes<Seq<T>>)
    ensures
        compose_run(Seq::<T>::empty(), r) == r,
{
    match r {
        PRes::POk(v, e) => {
            assert(Seq::<T>::empty() + v =~= v);
        },
        PRes::PFail(_) => {},
    }
}

/// Composing with an empty rest yields the prefix.
pub proof fn lemma_compose_run_done<T>(prefix: Seq<T>, end: int)
    ensures
        compose_run(prefix, PRes::<Seq<T>>::POk(Seq::empty(), end)) == PRes::<Seq<T>>::POk(
            prefix,
            end,
        ),
{
    assert(prefix + Seq::<T>::empty() =~= prefix);
}

/// A position-tracked reader over an immutable byte slice. Reads decode
/// big-endian integers and advance; the retrospective reads return the most
/// recently consumed field without advancing. The offset never moves past
/// the end of the slice.
pub struct Data<'a> {
    data: &'a [u8],
    pointer: usize,
}

impl<'a> Data<'a> {
    /// The underlying bytes.
    pub closed spec fn sbytes(&self) -> Seq<u8> {
        self.data@
    }

    /// The current offset.
    pub closed spec fn at(&self) -> int {
        self.pointer as int
    }

    /// The cursor invariant: the offset stays within the slice.
    pub open spec fn wf(&self) -> bool {
        0 <= self.at() <= self.sbytes().len()
    }

    /// How many bytes remain to be read.
    pub open spec fn remaining(&self) -> int {
        self.sbytes().len() - self.at()
    }

    /// A fresh cursor at the start of `data`. Binding a cursor to an
    /// attribute payload scopes all further reads to that sub-slice.
    pub fn new(data: &'a [u8]) -> (r: Data<'a>)
        ensures
            r.sbytes() == data@,
            r.at() == 0,
            r.wf(),
    {
        Data { data, pointer: 0 }
    }

    /// The current offset, executably.
    pub fn pos(&self) -> (r: usize)
        ensures
            r as int == self.at(),
    {
        self.pointer
    }

    /// Consume one byte.
    pub fn u1(&mut self) -> (r: Result<u8, ParseErr>)
        requires
            old(self).wf(),
        ensures
            final(self).wf(),
            final(self).sbytes() == old(self).sbytes(),
            old(self).at() <= final(self).at(),
            match r {
                Ok(v) => sp_u8(old(self).sbytes(), old(self).at()) == PRes::<u8>::POk(
                    v,
                    final(self).at(),
                ),
                Err(e) => sp_u8(old(self).sbytes(), old(self).at()) == PRes::<u8>::PFail(e.kind)
                    && final(self).at() == old(self).at(),
            },
    {
        if self.pointer < self.data.len() {
            let b = self.data[self.pointer];
            self.pointer = self.pointer + 1;
            Ok(b)
        } else {
            Err(ParseErr { kind: ErrKind::Truncated })
        }
    }

    /// Consume two bytes as a big-endian integer.
    pub fn u2(&mut self) -> (r: Result<u16, ParseErr>)
        requires
            old(self).wf(),
        ensures
            final(self).wf(),
            final(self).sbytes() == old(self).sbytes(),
            old(self).at() <= final(self).at(),
            match r {
                Ok(v) => sp_u16(old(self).sbytes(), old(self).at()) == PRes::<u16>::POk(
                    v,
                    final(self).at(),
                ),
                Err(e) => sp_u16(old(self).sbytes(), old(self).at()) == PRes::<u16>::PFail(e.kind),
            },
    {
        let hi = self.u1()?;
        let lo = self.u1()?;
        Ok((hi as u16) * 256 + (lo as u16))
    }

    /// Consume four bytes as a big-endian integer.
    pub fn u4(&mut self) -> (r: Result<u32, ParseErr>)
        requires
            old(self).wf(),
        ensures
            final(self).wf(),
            final(self).sbytes() == old(self).sbytes(),
            old(self).at() <= final(self).at(),
            match r {
                Ok(v) => sp_u32(old(self).sbytes(), old(self).at()) == PRes::<u32>::POk(
                    v,
                    final(self).at(),
                ),
                Err(e) => sp_u32(old(self).sbytes(), old(self).at()) == PRes::<u32>::PFail(e.kind),
            },
    {
        let hi = self.u2()?;
        let lo = self.u2()?;
        Ok((hi as u32) * 65536 + (lo as u32))
    }

    /// The most recently consumed byte, without advancing.
    pub fn last_u1(&self) -> (r: Result<u8, ParseErr>)
        requires
            self.wf(),
        ensures
            match r {
                Ok(v) => self.at() >= 1 && v == self.sbytes()[self.at() - 1],
                Err(e) => self.at() < 1 && e.kind == ErrKind::Truncated,
            },
    {
        if self.pointer >= 1 {
            Ok(self.data[self.pointer - 1])
        } else {
            Err(ParseErr { kind: ErrKind::Truncated })
        }
    }

    /// The most recently consumed 16-bit integer, without advancing.
    pub fn last_u2(&self) -> (r: Result<u16, ParseErr>)
        requires
            self.wf(),
        ensures
            match r {
                Ok(v) => self.at() >= 2 && v == be16(
                    self.sbytes()[self.at() - 2],
                    self.sbytes()[self.at() - 1],
                ),
                Err(e) => self.at() < 2 && e.kind == ErrKind::Truncated,
            },
    {
        if self.pointer >= 2 {
            let hi = self.data[self.pointer - 2];
            let lo = self.data[self.pointer - 1];
            Ok((hi as u16) * 256 + (lo as u16))
        } else {
            Err(ParseErr { kind: ErrKind::Truncated })
        }
    }

    /// The most recently consumed 32-bit integer, without advancing.
    pub fn last_u4(&self) -> (r: Result<u32, ParseErr>)
        requires
            self.wf(),
        ensures
            match r {
                Ok(v) => self.at() >= 4 && v == be32(
                    self.sbytes()[self.at() - 4],
                    self.sbytes()[self.at() - 3],
                    self.sbytes()[self.at() - 2],
                    self.sbytes()[self.at() - 1],
                ),
                Err(e) => self.at() < 4 && e.kind == ErrKind::Truncated,
            },
    {
        if self.pointer >= 4 {
            let b0 = self.data[self.pointer - 4];
            let b1 = self.data[self.pointer - 3];
            let b2 = self.data[self.pointer - 2];
            let b3 = self.data[self.pointer - 1];
            Ok((b0 as u32) * 16777216 + (b1 as u32) * 65536 + (b2 as u32) * 256 + (b3 as u32))
        } else {
            Err(ParseErr { kind: ErrKind::Truncated })
        }
    }

    /// Consume `n` bytes and return them as an owned vector.
    pub fn bytes(&mut self, n: usize) -> (r: Result<Vec<u8>, ParseErr>)
        requires
            old(self).wf(),
        ensures
            final(self).wf(),
            final(self).sbytes() == old(self).sbytes(),
            old(self).at() <= final(self).at(),
            match r {
                Ok(v) => sp_take(old(self).sbytes(), old(self).at(), n as int)
                    == PRes::<Seq<u8>>::POk(v@, final(self).at()) && final(self).at() == old(
                    self,
                ).at() + n,
                Err(e) => sp_take(old(self).sbytes(), old(self).at(), n as int)
                    == PRes::<Seq<u8>>::PFail(e.kind) && final(self).at() == old(self).at(),
            },
    {
        if n <= self.data.len() - self.pointer {
            let mut v: Vec<u8> = Vec::new();
            let mut k: usize = 0;
            while k < n
                invariant
                    self.wf(),
                    k <= n,
                    self.pointer + n <= self.data@.len(),
                    self.pointer + n <= usize::MAX,
                    v@ =~= self.data@.subrange(self.pointer as int, self.pointer + k),
                decreases n - k,
            {
                v.push(self.data[self.pointer + k]);
                k = k + 1;
            }
            proof {
                assert(v@ =~= self.sbytes().subrange(self.at(), self.at() + n as int));
            }
            self.pointer = self.pointer + n;
            Ok(v)
        } else {
            Err(ParseErr { kind: ErrKind::Truncated })
        }
    }
}

} // verus!
