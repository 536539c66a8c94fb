use vstd::prelude::*;

verus! {

/// The kinds of failure a parse can report. Exactly one kind is attached to
/// every error; the parse is fail-fast, so the first failure aborts it.
#[derive(Clone, Copy, Debug, PartialEq, Eq, Structural)]
pub enum ErrKind {
    /// A read ran past the end of the enclosing byte slice.
    Truncated,
    /// The leading four bytes were not 0xCAFEBABE.
    BadMagic,
    /// A constant pool tag byte outside {1, 3..=12, 15..=20}.
    UnknownCpTag,
    /// A pool index of 0 (where no sentinel is allowed) or beyond the pool.
    PoolOob,
    /// A pool reference whose target entry has the wrong kind.
    PoolKindMismatch,
    /// A Utf8 entry whose payload is not well-formed modified UTF-8.
    BadUtf8,
    /// A MethodHandle reference kind byte outside 1..=9.
    InvalidMethodHandleKind,
    /// A stack map frame type in the reserved range 128..=246.
    UnknownFrameType,
    /// A verification type tag outside 0..=8.
    UnknownVerificationTag,
    /// An annotation element value tag outside the recognized set.
    UnknownAnnotationValueTag,
    /// An attribute whose name is not recognized (the parser is strict).
    UnknownAttribute,
    /// A typed attribute payload that consumed fewer bytes than declared.
    AttributeLengthMismatch,
    /// Bytes left over after the class file ends (trailing input is rejected).
    TrailingBytes,
}

/// The error returned by a failed parse. The kind is structurally
/// identifiable; `message` renders it for humans.
#[derive(Clone, Copy, Debug, PartialEq, Eq, Structural)]
pub struct ParseErr {
    pub kind: ErrKind,
}

/// The human-readable description attached to each error kind.
pub open spec fn kind_message(k: ErrKind) -> Seq<char> {
    match k {
        ErrKind::Truncated => "unexpected end of input"@,
        ErrKind::BadMagic => "magic number is not 0xCAFEBABE"@,
        ErrKind::UnknownCpTag => "unknown constant pool tag"@,
        ErrKind::PoolOob => "constant pool index out of bounds"@,
        ErrKind::PoolKindMismatch => "constant pool entry has the wrong kind"@,
        ErrKind::BadUtf8 => "malformed modified UTF-8"@,
        ErrKind::InvalidMethodHandleKind => "invalid method handle reference kind"@,
        ErrKind::UnknownFrameType => "reserved stack map frame type"@,
        ErrKind::UnknownVerificationTag => "unknown verification type tag"@,
        ErrKind::UnknownAnnotationValueTag => "unknown annotation element value tag"@,
        ErrKind::UnknownAttribute => "unrecognized attribute name"@,
        ErrKind::AttributeLengthMismatch => "attribute payload length mismatch"@,
        ErrKind::TrailingBytes => "trailing bytes after class file"@,
    }
}

impl ParseErr {
    /// Wraps an error kind.
    pub fn new(kind: ErrKind) -> (r: ParseErr)
        ensures
            r.kind == kind,
    {
        ParseErr { kind }
    }

    /// A human-readable description of the failure.
    pub fn message(&self) -> (r: &'static str)
        ensures
            r@ == kind_message(self.kind),
    {
        match self.kind {
            ErrKind::Truncated => "unexpected end of input",
            ErrKind::BadMagic => "magic number is not 0xCAFEBABE",
            ErrKind::UnknownCpTag => "unknown constant pool tag",
            ErrKind::PoolOob => "constant pool index out of bounds",
            ErrKind::PoolKindMismatch => "constant pool entry has the wrong kind",
            ErrKind::BadUtf8 => "malformed modified UTF-8",
            ErrKind::InvalidMethodHandleKind => "invalid method handle reference kind",
            ErrKind::UnknownFrameType => "reserved stack map frame type",
            ErrKind::UnknownVerificationTag => "unknown verification type tag",
            ErrKind::UnknownAnnotationValueTag => "unknown annotation element value tag",
            ErrKind::UnknownAttribute => "unrecognized attribute name",
            ErrKind::AttributeLengthMismatch => "attribute payload length mismatch",
            ErrKind::TrailingBytes => "trailing bytes after class file",
        }
    }
}

} // verus!
