//! A verified parser for the Java class file format.
//!
//! The parser consumes a byte slice and produces a fully typed, validated
//! tree. Decoding runs in two phases: the flat constant pool is extracted
//! first, then the class envelope is read and every attribute payload is
//! resolved into its typed form, validating each constant pool reference
//! against the kind it must have. Trailing bytes after the class file are
//! rejected.

use vstd::prelude::*;

pub mod attrs;
pub mod classfile;
pub mod cursor;
pub mod err;
pub mod execute;
pub mod model;
pub mod pool;
pub mod resolve;

pub use cursor::Data;
pub use err::{ErrKind, ParseErr};
pub use execute::{LocalVariables, OperandStack};
pub use model::{
    Annotation, AnnotationElementValue, AnnotationElementValuePair, AnnotationValue, AttrInfo,
    Attribute, BootstrapMethod, ClassFile, CodeException, InnerClass, LineNumber,
    LocalVariableEntry, MemberInfo, ParameterAnnotation, RawAttribute, RawClass, RawMember,
    StackMapFrame, VerificationTypeInfo,
};
pub use pool::{CpEntry, CpKind};

use crate::err::ErrKind as EK;
use crate::model::{wf_class_file, ClassFileV};

verus! {

/// The whole parse, at specification level: decode the envelope from the
/// start of the input, reject trailing bytes, and resolve every attribute.
pub open spec fn sp_parse_class_file(s: Seq<u8>) -> Result<ClassFileV, EK> {
    match crate::classfile::sp_raw_class(s, 0) {
        crate::cursor::PRes::PFail(k) => Err(k),
        crate::cursor::PRes::POk(rc, end) => if end == s.len() {
            crate::resolve::sp_resolve_class(rc)
        } else {
            Err(EK::TrailingBytes)
        },
    }
}

/// How an executable outcome realizes a specification outcome: the same
/// tree on success (up to the model view), the same error kind on failure.
pub open spec fn result_models(r: Result<ClassFile, ParseErr>, m: Result<ClassFileV, EK>) -> bool {
    match r {
        Ok(c) => m == Ok::<ClassFileV, EK>(c.deep_view()),
        Err(e) => m == Err::<ClassFileV, EK>(e.kind),
    }
}

/// Parse one class file from a byte slice into the fully typed, validated
/// tree. The input must be consumed exactly: trailing bytes are rejected.
/// On success every constant pool reference in the tree lands on an entry
/// of the kind it promises, and no attribute remains unresolved.
pub fn parse_class_file(data: &[u8]) -> (r: Result<ClassFile, ParseErr>)
    ensures
        result_models(r, sp_parse_class_file(data@)),
        r matches Ok(c) ==> wf_class_file(c.deep_view()),
{
    let mut d = Data::new(data);
    let raw = crate::classfile::parse_raw_class(&mut d)?;
    if d.pos() != data.len() {
        return Err(ParseErr { kind: ErrKind::TrailingBytes });
    }
    crate::resolve::resolve_attributes(raw)
}

/// A successful parse consumes the input exactly: the cursor's final offset
/// equals the input length, because trailing bytes are rejected rather than
/// tolerated.
pub proof fn lemma_parse_consumes_input(s: Seq<u8>)
    ensures
        sp_parse_class_file(s) is Ok ==> (crate::classfile::sp_raw_class(s, 0) matches
            crate::cursor::PRes::POk(rc, end) && end == s.len()),
{
}

/// Parsing the same bytes twice yields structurally equal trees, and equal
/// error kinds on failure: the parse is a pure function of its input.
pub proof fn lemma_parse_idempotent(
    s: Seq<u8>,
    r1: Result<ClassFile, ParseErr>,
    r2: Result<ClassFile, ParseErr>,
)
    requires
        result_models(r1, sp_parse_class_file(s)),
        result_models(r2, sp_parse_class_file(s)),
    ensures
        r1 is Ok <==> r2 is Ok,
        r1 matches Ok(c1) ==> (r2 matches Ok(c2) && c1.deep_view() == c2.deep_view()),
        r1 matches Err(e1) ==> (r2 matches Err(e2) && e1.kind == e2.kind),
{
}

} // verus!
