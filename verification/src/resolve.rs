use vstd::prelude::*;
use vstd::string::StringSliceAdditionalSpecFns;

use crate::attrs::{
    sp_annotations_vec, sp_bootstrap_methods, sp_code_exceptions, sp_element_value, sp_frames,
    sp_inner_classes, sp_line_numbers, sp_local_variables, sp_param_annotations,
};
use crate::classfile::{lemma_sp_raw_attrs_bounds, sp_raw_attrs};
use crate::cursor::{sp_u16, sp_u32, Data, PRes};
use crate::err::{ErrKind, ParseErr};
use crate::model::{
    dv_attribute_seq, wf_attribute, wf_class_file, wf_member, wf_raw_member,
    AttrInfo, AttrInfoV, Attribute, AttributeV, ClassFile, ClassFileV, MemberInfo, MemberInfoV,
    RawAttribute, RawAttributeV, RawClass, RawClassV, RawMember, RawMemberV,
};
use crate::pool::{sp_cp_ref_any, valid_ref, CpEntry, CpEntryV, CpKind};

verus! {

// ---------------------------------------------------------------------------
// Attribute name comparison
// ---------------------------------------------------------------------------
/// Compare an attribute name, held as raw bytes, against an expected name.
fn name_is(bytes: &Vec<u8>, s: &str) -> (r: bool)
    ensures
        r == (bytes@ == s.spec_bytes()),
{
    let sb = s.as_bytes();
    if bytes.len() != sb.len() {
        return false;
    }
    let n = bytes.len();
    let mut i: usize = 0;
    while i < n
        invariant
            i <= n,
            n == bytes@.len(),
            n == sb@.len(),
            sb@ == s.spec_bytes(),
            forall|q: int| 0 <= q < i ==> bytes@[q] == s.spec_bytes()[q],
        decreases n - i,
    {
        if bytes[i] != sb[i] {
            proof {
                assert(bytes@[i as int] != s.spec_bytes()[i as int]);
            }
            return false;
        }
        i = i + 1;
    }
    proof {
        assert(bytes@ =~= s.spec_bytes());
    }
    true
}

// ---------------------------------------------------------------------------
// The recursion bound for nested attribute resolution
// ---------------------------------------------------------------------------
/// A strict upper bound on the payload lengths of a run of raw attributes.
pub open spec fn attrs_bound(raws: Seq<RawAttributeV>) -> int
    decreases raws.len(),
{
    if raws.len() == 0 {
        1
    } else {
        let rest = attrs_bound(raws.drop_first());
        if raws[0].payload.len() + 1 > rest {
            raws[0].payload.len() as int + 1
        } else {
            rest
        }
    }
}

/// The bound really bounds every payload.
pub proof fn lemma_attrs_bound(raws: Seq<RawAttributeV>)
    ensures
        forall|k: int| 0 <= k < raws.len() ==> (#[trigger] raws[k]).payload.len() < attrs_bound(
            raws,
        ),
    decreases raws.len(),
{
    reveal_with_fuel(attrs_bound, 2);
    if raws.len() > 0 {
        lemma_attrs_bound(raws.drop_first());
        assert forall|k: int|
            0 <= k < raws.len() implies (#[trigger] raws[k]).payload.len() < attrs_bound(raws) by {
            if k > 0 {
                assert(raws.drop_first()[k - 1] == raws[k]);
            }
        }
    }
}

// ---------------------------------------------------------------------------
// Resolution, specification level
// ---------------------------------------------------------------------------
/// The payload layout of the ConstantValue attribute.
pub open spec fn sp_attr_constant_value(
    pool: Seq<CpEntryV>,
    name_index: u16,
    length: u32,
    payload: Seq<u8>,
) -> Result<AttributeV, ErrKind> {
    match sp_cp_ref_any(payload, 0, pool) {
        PRes::PFail(k) => Err(k),
        PRes::POk(idx, end) => if end == payload.len() {
            Ok(
                AttributeV {
                    name_index,
                    length,
                    info: AttrInfoV::ConstantValue { constantvalue_index: idx },
                },
            )
        } else {
            Err(ErrKind::AttributeLengthMismatch)
        },
    }
}

/// The payload layout of the Code attribute.
pub open spec fn sp_attr_code(
    pool: Seq<CpEntryV>,
    name_index: u16,
    length: u32,
    payload: Seq<u8>,
) -> Result<AttributeV, ErrKind>
    decreases payload.len(), 1int, 0int,
{
    match sp_u16(payload, 0) {
        PRes::PFail(k) => Err(k),
        PRes::POk(max_stack, p1) => match sp_u16(payload, p1) {
            PRes::PFail(k) => Err(k),
            PRes::POk(max_locals, p2) => match sp_u32(payload, p2) {
                PRes::PFail(k) => Err(k),
                PRes::POk(clen, p3) => match crate::cursor::sp_take(
                    payload,
                    p3,
                    clen as int,
                ) {
                    PRes::PFail(k) => Err(k),
                    PRes::POk(code, p4) => match sp_u16(payload, p4) {
                        PRes::PFail(k) => Err(k),
                        PRes::POk(ec, p5) => match sp_code_exceptions(
                            payload,
                            p5,
                            ec as int,
                        ) {
                            PRes::PFail(k) => Err(k),
                            PRes::POk(exc, p6) => match sp_u16(payload, p6) {
                                PRes::PFail(k) => Err(k),
                                PRes::POk(ac, p7) => match sp_raw_attrs(
                                    payload,
                                    p7,
                                    pool,
                                    ac as int,
                                ) {
                                    PRes::PFail(k) => Err(k),
                                    PRes::POk(raws, p8) => if p8 != payload.len() {
                                        Err(ErrKind::AttributeLengthMismatch)
                                    } else if forall|k: int|
                                        0 <= k < raws.len() ==> (#[trigger] raws[k]).payload.len()
                                            < payload.len() {
                                        match sp_resolve_attrs(
                                            pool,
                                            raws,
                                            payload.len() as int,
                                        ) {
                                            Err(k) => Err(k),
                                            Ok(ats) => Ok(
                                                AttributeV {
                                                    name_index,
                                                    length,
                                                    info: AttrInfoV::Code {
                                                        max_stack,
                                                        max_locals,
                                                        code,
                                                        exception_table: exc,
                                                        attributes: ats,
                                                    },
                                                },
                                            ),
                                        }
                                    } else {
                                        Err(ErrKind::Truncated)
                                    },
                                },
                            },
                        },
                    },
                },
            },
        },
    }
}

/// The payload layout of the StackMapTable attribute.
pub open spec fn sp_attr_stack_map_table(
    pool: Seq<CpEntryV>,
    name_index: u16,
    length: u32,
    payload: Seq<u8>,
) -> Result<AttributeV, ErrKind> {
    match sp_u16(payload, 0) {
        PRes::PFail(k) => Err(k),
        PRes::POk(n, p1) => match sp_frames(payload, p1, pool, n as int) {
            PRes::PFail(k) => Err(k),
            PRes::POk(entries, end) => if end == payload.len() {
                Ok(
                    AttributeV {
                        name_index,
                        length,
                        info: AttrInfoV::StackMapTable { entries },
                    },
                )
            } else {
                Err(ErrKind::AttributeLengthMismatch)
            },
        },
    }
}

/// The payload layout of the Exceptions attribute.
pub open spec fn sp_attr_exceptions(
    pool: Seq<CpEntryV>,
    name_index: u16,
    length: u32,
    payload: Seq<u8>,
) -> Result<AttributeV, ErrKind> {
    match sp_u16(payload, 0) {
        PRes::PFail(k) => Err(k),
        PRes::POk(n, p1) => match crate::attrs::sp_class_refs(
            payload,
            p1,
            pool,
            n as int,
        ) {
            PRes::PFail(k) => Err(k),
            PRes::POk(tbl, end) => if end == payload.len() {
                Ok(
                    AttributeV {
                        name_index,
                        length,
                        info: AttrInfoV::Exceptions { exception_index_table: tbl },
                    },
                )
            } else {
                Err(ErrKind::AttributeLengthMismatch)
            },
        },
    }
}

/// The payload layout of the InnerClasses attribute.
pub open spec fn sp_attr_inner_classes(
    pool: Seq<CpEntryV>,
    name_index: u16,
    length: u32,
    payload: Seq<u8>,
) -> Result<AttributeV, ErrKind> {
    match sp_u16(payload, 0) {
        PRes::PFail(k) => Err(k),
        PRes::POk(n, p1) => match sp_inner_classes(payload, p1, pool, n as int) {
            PRes::PFail(k) => Err(k),
            PRes::POk(cs, end) => if end == payload.len() {
                Ok(
                    AttributeV {
                        name_index,
                        length,
                        info: AttrInfoV::InnerClasses { classes: cs },
                    },
                )
            } else {
                Err(ErrKind::AttributeLengthMismatch)
            },
        },
    }
}

/// The payload layout of the EnclosingMethod attribute.
pub open spec fn sp_attr_enclosing_method(
    pool: Seq<CpEntryV>,
    name_index: u16,
    length: u32,
    payload: Seq<u8>,
) -> Result<AttributeV, ErrKind> {
    match crate::pool::sp_cp_ref(payload, 0, pool, CpKind::Class) {
        PRes::PFail(k) => Err(k),
        PRes::POk(ci, p1) => match crate::pool::sp_cp_ref(
            payload,
            p1,
            pool,
            CpKind::NameAndType,
        ) {
            PRes::PFail(k) => Err(k),
            PRes::POk(mi, end) => if end == payload.len() {
                Ok(
                    AttributeV {
                        name_index,
                        length,
                        info: AttrInfoV::EnclosingMethod {
                            class_index: ci,
                            method_index: mi,
                        },
                    },
                )
            } else {
                Err(ErrKind::AttributeLengthMismatch)
            },
        },
    }
}

/// The payload layout of the Synthetic attribute.
pub open spec fn sp_attr_synthetic(
    pool: Seq<CpEntryV>,
    name_index: u16,
    length: u32,
    payload: Seq<u8>,
) -> Result<AttributeV, ErrKind> {
    if payload.len() == 0 {
        Ok(AttributeV { name_index, length, info: AttrInfoV::Synthetic })
    } else {
        Err(ErrKind::AttributeLengthMismatch)
    }
}

/// The payload layout of the Signature attribute.
pub open spec fn sp_attr_signature(
    pool: Seq<CpEntryV>,
    name_index: u16,
    length: u32,
    payload: Seq<u8>,
) -> Result<AttributeV, ErrKind> {
    match crate::pool::sp_cp_ref(payload, 0, pool, CpKind::Utf8) {
        PRes::PFail(k) => Err(k),
        PRes::POk(si, end) => if end == payload.len() {
            Ok(
                AttributeV {
                    name_index,
                    length,
                    info: AttrInfoV::Signature { signature_index: si },
                },
            )
        } else {
            Err(ErrKind::AttributeLengthMismatch)
        },
    }
}

/// The payload layout of the SourceFile attribute.
pub open spec fn sp_attr_source_file(
    pool: Seq<CpEntryV>,
    name_index: u16,
    length: u32,
    payload: Seq<u8>,
) -> Result<AttributeV, ErrKind> {
    match crate::pool::sp_cp_ref(payload, 0, pool, CpKind::Utf8) {
        PRes::PFail(k) => Err(k),
        PRes::POk(si, end) => if end == payload.len() {
            Ok(
                AttributeV {
                    name_index,
                    length,
                    info: AttrInfoV::SourceFile { sourcefile_index: si },
                },
            )
        } else {
            Err(ErrKind::AttributeLengthMismatch)
        },
    }
}

/// The payload layout of the SourceDebugExtension attribute.
pub open spec fn sp_attr_source_debug_extension(
    pool: Seq<CpEntryV>,
    name_index: u16,
    length: u32,
    payload: Seq<u8>,
) -> Result<AttributeV, ErrKind> {
    Ok(
        AttributeV {
            name_index,
            length,
            info: AttrInfoV::SourceDebugExtension { debug_extension: payload },
        },
    )
}

/// The payload layout of the LineNumberTable attribute.
pub open spec fn sp_attr_line_number_table(
    pool: Seq<CpEntryV>,
    name_index: u16,
    length: u32,
    payload: Seq<u8>,
) -> Result<AttributeV, ErrKind> {
    match sp_u16(payload, 0) {
        PRes::PFail(k) => Err(k),
        PRes::POk(n, p1) => match sp_line_numbers(payload, p1, n as int) {
            PRes::PFail(k) => Err(k),
            PRes::POk(tbl, end) => if end == payload.len() {
                Ok(
                    AttributeV {
                        name_index,
                        length,
                        info: AttrInfoV::LineNumberTable { line_number_table: tbl },
                    },
                )
            } else {
                Err(ErrKind::AttributeLengthMismatch)
            },
        },
    }
}

/// The payload layout of the LocalVariableTable attribute.
pub open spec fn sp_attr_local_variable_table(
    pool: Seq<CpEntryV>,
    name_index: u16,
    length: u32,
    payload: Seq<u8>,
) -> Result<AttributeV, ErrKind> {
    match sp_u16(payload, 0) {
        PRes::PFail(k) => Err(k),
        PRes::POk(n, p1) => match sp_local_variables(payload, p1, pool, n as int) {
            PRes::PFail(k) => Err(k),
            PRes::POk(tbl, end) => if end == payload.len() {
                Ok(
                    AttributeV {
                        name_index,
                        length,
                        info: AttrInfoV::LocalVariableTable {
                            local_variable_table: tbl,
                        },
                    },
                )
            } else {
                Err(ErrKind::AttributeLengthMismatch)
            },
        },
    }
}

/// The payload layout of the LocalVariableTypeTable attribute.
pub open spec fn sp_attr_local_variable_type_table(
    pool: Seq<CpEntryV>,
    name_index: u16,
    length: u32,
    payload: Seq<u8>,
) -> Result<AttributeV, ErrKind> {
    match sp_u16(payload, 0) {
        PRes::PFail(k) => Err(k),
        PRes::POk(n, p1) => match sp_local_variables(payload, p1, pool, n as int) {
            PRes::PFail(k) => Err(k),
            PRes::POk(tbl, end) => if end == payload.len() {
                Ok(
                    AttributeV {
                        name_index,
                        length,
                        info: AttrInfoV::LocalVariableTypeTable {
                            local_variable_table: tbl,
                        },
                    },
                )
            } else {
                Err(ErrKind::AttributeLengthMismatch)
            },
        },
    }
}

/// The payload layout of the Deprecated attribute.
pub open spec fn sp_attr_deprecated(
    pool: Seq<CpEntryV>,
    name_index: u16,
    length: u32,
    payload: Seq<u8>,
) -> Result<AttributeV, ErrKind> {
    if payload.len() == 0 {
        Ok(AttributeV { name_index, length, info: AttrInfoV::Deprecated })
    } else {
        Err(ErrKind::AttributeLengthMismatch)
    }
}

/// The payload layout of the RuntimeVisibleAnnotations attribute.
pub open spec fn sp_attr_runtime_visible_annotations(
    pool: Seq<CpEntryV>,
    name_index: u16,
    length: u32,
    payload: Seq<u8>,
) -> Result<AttributeV, ErrKind> {
    match sp_u16(payload, 0) {
        PRes::PFail(k) => Err(k),
        PRes::POk(n, p1) => match sp_annotations_vec(payload, p1, pool, n as int) {
            PRes::PFail(k) => Err(k),
            PRes::POk(anns, end) => if end == payload.len() {
                Ok(
                    AttributeV {
                        name_index,
                        length,
                        info: AttrInfoV::RuntimeVisibleAnnotations {
                            annotations: anns,
                        },
                    },
                )
            } else {
                Err(ErrKind::AttributeLengthMismatch)
            },
        },
    }
}

/// The payload layout of the RuntimeInvisibleAnnotations attribute.
pub open spec fn sp_attr_runtime_invisible_annotations(
    pool: Seq<CpEntryV>,
    name_index: u16,
    length: u32,
    payload: Seq<u8>,
) -> Result<AttributeV, ErrKind> {
    match sp_u16(payload, 0) {
        PRes::PFail(k) => Err(k),
        PRes::POk(n, p1) => match sp_annotations_vec(payload, p1, pool, n as int) {
            PRes::PFail(k) => Err(k),
            PRes::POk(anns, end) => if end == payload.len() {
                Ok(
                    AttributeV {
                        name_index,
                        length,
                        info: AttrInfoV::RuntimeInvisibleAnnotations {
                            annotations: anns,
                        },
                    },
                )
            } else {
                Err(ErrKind::AttributeLengthMismatch)
            },
        },
    }
}

/// The payload layout of the RuntimeVisibleParameterAnnotations attribute.
pub open spec fn sp_attr_runtime_visible_parameter_annotations(
    pool: Seq<CpEntryV>,
    name_index: u16,
    length: u32,
    payload: Seq<u8>,
) -> Result<AttributeV, ErrKind> {
    match crate::cursor::sp_u8(payload, 0) {
        PRes::PFail(k) => Err(k),
        PRes::POk(n, p1) => match sp_param_annotations(payload, p1, pool, n as int) {
            PRes::PFail(k) => Err(k),
            PRes::POk(ps, end) => if end == payload.len() {
                Ok(
                    AttributeV {
                        name_index,
                        length,
                        info: AttrInfoV::RuntimeVisibleParameterAnnotations {
                            parameter_annotations: ps,
                        },
                    },
                )
            } else {
                Err(ErrKind::AttributeLengthMismatch)
            },
        },
    }
}

/// The payload layout of the RuntimeInvisibleParameterAnnotations attribute.
pub open spec fn sp_attr_runtime_invisible_parameter_annotations(
    pool: Seq<CpEntryV>,
    name_index: u16,
    length: u32,
    payload: Seq<u8>,
) -> Result<AttributeV, ErrKind> {
    match crate::cursor::sp_u8(payload, 0) {
        PRes::PFail(k) => Err(k),
        PRes::POk(n, p1) => match sp_param_annotations(payload, p1, pool, n as int) {
            PRes::PFail(k) => Err(k),
            PRes::POk(ps, end) => if end == payload.len() {
                Ok(
                    AttributeV {
                        name_index,
                        length,
                        info: AttrInfoV::RuntimeInvisibleParameterAnnotations {
                            parameter_annotations: ps,
                        },
                    },
                )
            } else {
                Err(ErrKind::AttributeLengthMismatch)
            },
        },
    }
}

/// The payload layout of the AnnotationDefault attribute.
pub open spec fn sp_attr_annotation_default(
    pool: Seq<CpEntryV>,
    name_index: u16,
    length: u32,
    payload: Seq<u8>,
) -> Result<AttributeV, ErrKind> {
    match sp_element_value(payload, 0, pool) {
        PRes::PFail(k) => Err(k),
        PRes::POk(v, end) => if end == payload.len() {
            Ok(
                AttributeV {
                    name_index,
                    length,
                    info: AttrInfoV::AnnotationDefault { default_value: v },
                },
            )
        } else {
            Err(ErrKind::AttributeLengthMismatch)
        },
    }
}

/// The payload layout of the BootstrapMethods attribute.
pub open spec fn sp_attr_bootstrap_methods(
    pool: Seq<CpEntryV>,
    name_index: u16,
    length: u32,
    payload: Seq<u8>,
) -> Result<AttributeV, ErrKind> {
    match sp_u16(payload, 0) {
        PRes::PFail(k) => Err(k),
        PRes::POk(n, p1) => match sp_bootstrap_methods(payload, p1, pool, n as int) {
            PRes::PFail(k) => Err(k),
            PRes::POk(bs, end) => if end == payload.len() {
                Ok(
                    AttributeV {
                        name_index,
                        length,
                        info: AttrInfoV::BootstrapMethods { bootstrap_methods: bs },
                    },
                )
            } else {
                Err(ErrKind::AttributeLengthMismatch)
            },
        },
    }
}

/// Resolve one attribute: look its name up in the pool, decode the payload
/// under that name from a fresh sub-cursor, and demand that the typed
/// payload consume the declared length exactly. Unknown names are rejected.
pub open spec fn sp_resolve_attr(
    pool: Seq<CpEntryV>,
    name_index: u16,
    length: u32,
    payload: Seq<u8>,
) -> Result<AttributeV, ErrKind>
    decreases payload.len(), 2int, 0int,
{
    if name_index == 0 || name_index as int > pool.len() {
        Err(ErrKind::PoolOob)
    } else {
        match pool[name_index as int - 1] {
            CpEntryV::Utf8 { bytes: nm } =>             if nm == "ConstantValue".spec_bytes() {
                sp_attr_constant_value(pool, name_index, length, payload)
            } else if nm == "Code".spec_bytes() {
                sp_attr_code(pool, name_index, length, payload)
            } else if nm == "StackMapTable".spec_bytes() {
                sp_attr_stack_map_table(pool, name_index, length, payload)
            } else if nm == "Exceptions".spec_bytes() {
                sp_attr_exceptions(pool, name_index, length, payload)
            } else if nm == "InnerClasses".spec_bytes() {
                sp_attr_inner_classes(pool, name_index, length, payload)
            } else if nm == "EnclosingMethod".spec_bytes() {
                sp_attr_enclosing_method(pool, name_index, length, payload)
            } else if nm == "Synthetic".spec_bytes() {
                sp_attr_synthetic(pool, name_index, length, payload)
            } else if nm == "Signature".spec_bytes() {
                sp_attr_signature(pool, name_index, length, payload)
            } else if nm == "SourceFile".spec_bytes() {
                sp_attr_source_file(pool, name_index, length, payload)
            } else if nm == "SourceDebugExtension".spec_bytes() {
                sp_attr_source_debug_extension(pool, name_index, length, payload)
            } else if nm == "LineNumberTable".spec_bytes() {
                sp_attr_line_number_table(pool, name_index, length, payload)
            } else if nm == "LocalVariableTable".spec_bytes() {
                sp_attr_local_variable_table(pool, name_index, length, payload)
            } else if nm == "LocalVariableTypeTable".spec_bytes() {
                sp_attr_local_variable_type_table(pool, name_index, length, payload)
            } else if nm == "Deprecated".spec_bytes() {
                sp_attr_deprecated(pool, name_index, length, payload)
            } else if nm == "RuntimeVisibleAnnotations".spec_bytes() {
                sp_attr_runtime_visible_annotations(pool, name_index, length, payload)
            } else if nm == "RuntimeInvisibleAnnotations".spec_bytes() {
                sp_attr_runtime_invisible_annotations(pool, name_index, length, payload)
            } else if nm == "RuntimeVisibleParameterAnnotations".spec_bytes() {
                sp_attr_runtime_visible_parameter_annotations(pool, name_index, length, payload)
            } else if nm == "RuntimeInvisibleParameterAnnotations".spec_bytes() {
                sp_attr_runtime_invisible_parameter_annotations(pool, name_index, length, payload)
            } else if nm == "AnnotationDefault".spec_bytes() {
                sp_attr_annotation_default(pool, name_index, length, payload)
            } else if nm == "BootstrapMethods".spec_bytes() {
                sp_attr_bootstrap_methods(pool, name_index, length, payload)
            } else {
                Err(ErrKind::UnknownAttribute)
            },
            _ => Err(ErrKind::PoolKindMismatch),
        }
    }
}

/// Resolve a run of raw attributes, in order, stopping at the first
/// failure. `bound` strictly bounds every payload length, which is what
/// makes the recursion through nested Code attributes terminate.
pub open spec fn sp_resolve_attrs(
    pool: Seq<CpEntryV>,
    raws: Seq<RawAttributeV>,
    bound: int,
) -> Result<Seq<AttributeV>, ErrKind>
    decreases bound, 0int, raws.len(),
{
    if raws.len() == 0 {
        Ok(Seq::empty())
    } else if !(forall|k: int|
        0 <= k < raws.len() ==> (#[trigger] raws[k]).payload.len() < bound) {
        Err(ErrKind::Truncated)
    } else {
        match sp_resolve_attr(pool, raws[0].name_index, raws[0].length, raws[0].payload) {
            Err(k) => Err(k),
            Ok(a) => match sp_resolve_attrs(pool, raws.drop_first(), bound) {
                Err(k) => Err(k),
                Ok(rest) => Ok(seq![a] + rest),
            },
        }
    }
}

// ---------------------------------------------------------------------------
// Resolution, executable level
// ---------------------------------------------------------------------------
/// The model run of resolved attributes is the elementwise model.
pub proof fn lemma_dv_attribute_seq_elts(v: Seq<Attribute>)
    ensures
        dv_attribute_seq(v).len() == v.len(),
        forall|q: int| 0 <= q < v.len() ==> dv_attribute_seq(v)[q] == v[q].deep_view(),
    decreases v.len(),
{
    reveal_with_fuel(dv_attribute_seq, 3);
    if v.len() > 0 {
        lemma_dv_attribute_seq_elts(v.drop_first());
        assert(dv_attribute_seq(v) == seq![v[0].deep_view()] + dv_attribute_seq(v.drop_first()));
        assert forall|q: int| 0 <= q < v.len() implies dv_attribute_seq(v)[q]
            == v[q].deep_view() by {
            if q > 0 {
                assert(dv_attribute_seq(v)[q] == dv_attribute_seq(v.drop_first())[q - 1]);
                assert(v.drop_first()[q - 1] == v[q]);
            }
        }
    }
}

/// Resolve one raw attribute into its typed form.
/// Resolve a ConstantValue attribute payload.
fn resolve_constant_value(pool: &Vec<CpEntry>, name_index: u16, length: u32, payload: &Vec<u8>) -> (r:
    Result<Attribute, ParseErr>)
    requires
        valid_ref(pool.deep_view(), name_index, CpKind::Utf8),
    ensures
        match r {
            Ok(a) => sp_attr_constant_value(pool.deep_view(), name_index, length, payload@) == Ok::<
                AttributeV,
                ErrKind,
            >(a.deep_view()) && wf_attribute(pool.deep_view(), a.deep_view()),
            Err(e) => sp_attr_constant_value(pool.deep_view(), name_index, length, payload@) == Err::<
                AttributeV,
                ErrKind,
            >(e.kind),
        },
{
    let ghost pv = pool.deep_view();
    let ghost pl = payload@;
    let mut data = Data::new(payload.as_slice());
    let plen = payload.len();
    let constantvalue_index = data.cp_any(pool)?;
    if data.pos() != plen {
        return Err(ParseErr { kind: ErrKind::AttributeLengthMismatch });
    }
    Ok(
        Attribute {
            name_index: name_index,
            length: length,
            info: AttrInfo::ConstantValue { constantvalue_index },
        },
    )
}

/// Resolve a Code attribute payload.
fn resolve_code(pool: &Vec<CpEntry>, name_index: u16, length: u32, payload: &Vec<u8>) -> (r:
    Result<Attribute, ParseErr>)
    requires
        valid_ref(pool.deep_view(), name_index, CpKind::Utf8),
    ensures
        match r {
            Ok(a) => sp_attr_code(pool.deep_view(), name_index, length, payload@) == Ok::<
                AttributeV,
                ErrKind,
            >(a.deep_view()) && wf_attribute(pool.deep_view(), a.deep_view()),
            Err(e) => sp_attr_code(pool.deep_view(), name_index, length, payload@) == Err::<
                AttributeV,
                ErrKind,
            >(e.kind),
        },
    decreases payload@.len(), 1int, 0int,
{
    let ghost pv = pool.deep_view();
    let ghost pl = payload@;
    let mut data = Data::new(payload.as_slice());
    let plen = payload.len();
    let max_stack = data.u2()?;
    let max_locals = data.u2()?;
    let clen = data.u4()?;
    let code = data.bytes(clen as usize)?;
    let ec = data.u2()?;
    let exception_table = crate::attrs::parse_code_exceptions(&mut data, ec)?;
    let ac = data.u2()?;
    let ghost p7 = data.at();
    let raws = crate::classfile::parse_raw_attrs(&mut data, pool, ac)?;
    if data.pos() != plen {
        return Err(ParseErr { kind: ErrKind::AttributeLengthMismatch });
    }
    proof {
        lemma_sp_raw_attrs_bounds(pl, p7, pv, ac as int);
        assert(forall|k2: int|
            0 <= k2 < raws.deep_view().len() ==> (#[trigger] raws.deep_view()[k2]).payload.len()
                < pl.len());
    }
    let attributes = resolve_attribute_list(pool, &raws, Ghost(pl.len() as int))?;
    proof {
        lemma_dv_attribute_seq_elts(attributes@);
        assert(dv_attribute_seq(attributes@) =~= attributes.deep_view());
    }
    Ok(
        Attribute {
            name_index: name_index,
            length: length,
            info: AttrInfo::Code { max_stack, max_locals, code, exception_table, attributes },
        },
    )
}

/// Resolve a StackMapTable attribute payload.
fn resolve_stack_map_table(pool: &Vec<CpEntry>, name_index: u16, length: u32, payload: &Vec<u8>) -> (r:
    Result<Attribute, ParseErr>)
    requires
        valid_ref(pool.deep_view(), name_index, CpKind::Utf8),
    ensures
        match r {
            Ok(a) => sp_attr_stack_map_table(pool.deep_view(), name_index, length, payload@) == Ok::<
                AttributeV,
                ErrKind,
            >(a.deep_view()) && wf_attribute(pool.deep_view(), a.deep_view()),
            Err(e) => sp_attr_stack_map_table(pool.deep_view(), name_index, length, payload@) == Err::<
                AttributeV,
                ErrKind,
            >(e.kind),
        },
{
    let ghost pv = pool.deep_view();
    let ghost pl = payload@;
    let mut data = Data::new(payload.as_slice());
    let plen = payload.len();
    let n = data.u2()?;
    let entries = crate::attrs::parse_frames(&mut data, pool, n)?;
    if data.pos() != plen {
        return Err(ParseErr { kind: ErrKind::AttributeLengthMismatch });
    }
    Ok(
        Attribute {
            name_index: name_index,
            length: length,
            info: AttrInfo::StackMapTable { entries },
        },
    )
}

/// Resolve a Exceptions attribute payload.
fn resolve_exceptions(pool: &Vec<CpEntry>, name_index: u16, length: u32, payload: &Vec<u8>) -> (r:
    Result<Attribute, ParseErr>)
    requires
        valid_ref(pool.deep_view(), name_index, CpKind::Utf8),
    ensures
        match r {
            Ok(a) => sp_attr_exceptions(pool.deep_view(), name_index, length, payload@) == Ok::<
                AttributeV,
                ErrKind,
            >(a.deep_view()) && wf_attribute(pool.deep_view(), a.deep_view()),
            Err(e) => sp_attr_exceptions(pool.deep_view(), name_index, length, payload@) == Err::<
                AttributeV,
                ErrKind,
            >(e.kind),
        },
{
    let ghost pv = pool.deep_view();
    let ghost pl = payload@;
    let mut data = Data::new(payload.as_slice());
    let plen = payload.len();
    let n = data.u2()?;
    let exception_index_table = crate::attrs::parse_class_refs(&mut data, pool, n)?;
    if data.pos() != plen {
        return Err(ParseErr { kind: ErrKind::AttributeLengthMismatch });
    }
    Ok(
        Attribute {
            name_index: name_index,
            length: length,
            info: AttrInfo::Exceptions { exception_index_table },
        },
    )
}

/// Resolve a InnerClasses attribute payload.
fn resolve_inner_classes(pool: &Vec<CpEntry>, name_index: u16, length: u32, payload: &Vec<u8>) -> (r:
    Result<Attribute, ParseErr>)
    requires
        valid_ref(pool.deep_view(), name_index, CpKind::Utf8),
    ensures
        match r {
            Ok(a) => sp_attr_inner_classes(pool.deep_view(), name_index, length, payload@) == Ok::<
                AttributeV,
                ErrKind,
            >(a.deep_view()) && wf_attribute(pool.deep_view(), a.deep_view()),
            Err(e) => sp_attr_inner_classes(pool.deep_view(), name_index, length, payload@) == Err::<
                AttributeV,
                ErrKind,
            >(e.kind),
        },
{
    let ghost pv = pool.deep_view();
    let ghost pl = payload@;
    let mut data = Data::new(payload.as_slice());
    let plen = payload.len();
    let n = data.u2()?;
    let classes = crate::attrs::parse_inner_classes(&mut data, pool, n)?;
    if data.pos() != plen {
        return Err(ParseErr { kind: ErrKind::AttributeLengthMismatch });
    }
    Ok(
        Attribute {
            name_index: name_index,
            length: length,
            info: AttrInfo::InnerClasses { classes },
        },
    )
}

/// Resolve a EnclosingMethod attribute payload.
fn resolve_enclosing_method(pool: &Vec<CpEntry>, name_index: u16, length: u32, payload: &Vec<u8>) -> (r:
    Result<Attribute, ParseErr>)
    requires
        valid_ref(pool.deep_view(), name_index, CpKind::Utf8),
    ensures
        match r {
            Ok(a) => sp_attr_enclosing_method(pool.deep_view(), name_index, length, payload@) == Ok::<
                AttributeV,
                ErrKind,
            >(a.deep_view()) && wf_attribute(pool.deep_view(), a.deep_view()),
            Err(e) => sp_attr_enclosing_method(pool.deep_view(), name_index, length, payload@) == Err::<
                AttributeV,
                ErrKind,
            >(e.kind),
        },
{
    let ghost pv = pool.deep_view();
    let ghost pl = payload@;
    let mut data = Data::new(payload.as_slice());
    let plen = payload.len();
    let class_index = data.cp(pool, CpKind::Class)?;
    let method_index = data.cp(pool, CpKind::NameAndType)?;
    if data.pos() != plen {
        return Err(ParseErr { kind: ErrKind::AttributeLengthMismatch });
    }
    Ok(
        Attribute {
            name_index: name_index,
            length: length,
            info: AttrInfo::EnclosingMethod { class_index, method_index },
        },
    )
}

/// Resolve a Synthetic attribute payload.
fn resolve_synthetic(pool: &Vec<CpEntry>, name_index: u16, length: u32, payload: &Vec<u8>) -> (r:
    Result<Attribute, ParseErr>)
    requires
        valid_ref(pool.deep_view(), name_index, CpKind::Utf8),
    ensures
        match r {
            Ok(a) => sp_attr_synthetic(pool.deep_view(), name_index, length, payload@) == Ok::<
                AttributeV,
                ErrKind,
            >(a.deep_view()) && wf_attribute(pool.deep_view(), a.deep_view()),
            Err(e) => sp_attr_synthetic(pool.deep_view(), name_index, length, payload@) == Err::<
                AttributeV,
                ErrKind,
            >(e.kind),
        },
{
    let ghost pv = pool.deep_view();
    let ghost pl = payload@;
    let mut data = Data::new(payload.as_slice());
    let plen = payload.len();
    if plen != 0 {
        return Err(ParseErr { kind: ErrKind::AttributeLengthMismatch });
    }
    Ok(Attribute { name_index: name_index, length: length, info: AttrInfo::Synthetic })
}

/// Resolve a Signature attribute payload.
fn resolve_signature(pool: &Vec<CpEntry>, name_index: u16, length: u32, payload: &Vec<u8>) -> (r:
    Result<Attribute, ParseErr>)
    requires
        valid_ref(pool.deep_view(), name_index, CpKind::Utf8),
    ensures
        match r {
            Ok(a) => sp_attr_signature(pool.deep_view(), name_index, length, payload@) == Ok::<
                AttributeV,
                ErrKind,
            >(a.deep_view()) && wf_attribute(pool.deep_view(), a.deep_view()),
            Err(e) => sp_attr_signature(pool.deep_view(), name_index, length, payload@) == Err::<
                AttributeV,
                ErrKind,
            >(e.kind),
        },
{
    let ghost pv = pool.deep_view();
    let ghost pl = payload@;
    let mut data = Data::new(payload.as_slice());
    let plen = payload.len();
    let signature_index = data.cp(pool, CpKind::Utf8)?;
    if data.pos() != plen {
        return Err(ParseErr { kind: ErrKind::AttributeLengthMismatch });
    }
    Ok(
        Attribute {
            name_index: name_index,
            length: length,
            info: AttrInfo::Signature { signature_index },
        },
    )
}

/// Resolve a SourceFile attribute payload.
fn resolve_source_file(pool: &Vec<CpEntry>, name_index: u16, length: u32, payload: &Vec<u8>) -> (r:
    Result<Attribute, ParseErr>)
    requires
        valid_ref(pool.deep_view(), name_index, CpKind::Utf8),
    ensures
        match r {
            Ok(a) => sp_attr_source_file(pool.deep_view(), name_index, length, payload@) == Ok::<
                AttributeV,
                ErrKind,
            >(a.deep_view()) && wf_attribute(pool.deep_view(), a.deep_view()),
            Err(e) => sp_attr_source_file(pool.deep_view(), name_index, length, payload@) == Err::<
                AttributeV,
                ErrKind,
            >(e.kind),
        },
{
    let ghost pv = pool.deep_view();
    let ghost pl = payload@;
    let mut data = Data::new(payload.as_slice());
    let plen = payload.len();
    let sourcefile_index = data.cp(pool, CpKind::Utf8)?;
    if data.pos() != plen {
        return Err(ParseErr { kind: ErrKind::AttributeLengthMismatch });
    }
    Ok(
        Attribute {
            name_index: name_index,
            length: length,
            info: AttrInfo::SourceFile { sourcefile_index },
        },
    )
}

/// Resolve a SourceDebugExtension attribute payload.
fn resolve_source_debug_extension(pool: &Vec<CpEntry>, name_index: u16, length: u32, payload: &Vec<u8>) -> (r:
    Result<Attribute, ParseErr>)
    requires
        valid_ref(pool.deep_view(), name_index, CpKind::Utf8),
    ensures
        match r {
            Ok(a) => sp_attr_source_debug_extension(pool.deep_view(), name_index, length, payload@) == Ok::<
                AttributeV,
                ErrKind,
            >(a.deep_view()) && wf_attribute(pool.deep_view(), a.deep_view()),
            Err(e) => sp_attr_source_debug_extension(pool.deep_view(), name_index, length, payload@) == Err::<
                AttributeV,
                ErrKind,
            >(e.kind),
        },
{
    let ghost pv = pool.deep_view();
    let ghost pl = payload@;
    let mut data = Data::new(payload.as_slice());
    let plen = payload.len();
    let debug_extension = data.bytes(plen)?;
    proof {
        assert(debug_extension@ =~= pl);
    }
    Ok(
        Attribute {
            name_index: name_index,
            length: length,
            info: AttrInfo::SourceDebugExtension { debug_extension },
        },
    )
}

/// Resolve a LineNumberTable attribute payload.
fn resolve_line_number_table(pool: &Vec<CpEntry>, name_index: u16, length: u32, payload: &Vec<u8>) -> (r:
    Result<Attribute, ParseErr>)
    requires
        valid_ref(pool.deep_view(), name_index, CpKind::Utf8),
    ensures
        match r {
            Ok(a) => sp_attr_line_number_table(pool.deep_view(), name_index, length, payload@) == Ok::<
                AttributeV,
                ErrKind,
            >(a.deep_view()) && wf_attribute(pool.deep_view(), a.deep_view()),
            Err(e) => sp_attr_line_number_table(pool.deep_view(), name_index, length, payload@) == Err::<
                AttributeV,
                ErrKind,
            >(e.kind),
        },
{
    let ghost pv = pool.deep_view();
    let ghost pl = payload@;
    let mut data = Data::new(payload.as_slice());
    let plen = payload.len();
    let n = data.u2()?;
    let line_number_table = crate::attrs::parse_line_numbers(&mut data, n)?;
    if data.pos() != plen {
        return Err(ParseErr { kind: ErrKind::AttributeLengthMismatch });
    }
    Ok(
        Attribute {
            name_index: name_index,
            length: length,
            info: AttrInfo::LineNumberTable { line_number_table },
        },
    )
}

/// Resolve a LocalVariableTable attribute payload.
fn resolve_local_variable_table(pool: &Vec<CpEntry>, name_index: u16, length: u32, payload: &Vec<u8>) -> (r:
    Result<Attribute, ParseErr>)
    requires
        valid_ref(pool.deep_view(), name_index, CpKind::Utf8),
    ensures
        match r {
            Ok(a) => sp_attr_local_variable_table(pool.deep_view(), name_index, length, payload@) == Ok::<
                AttributeV,
                ErrKind,
            >(a.deep_view()) && wf_attribute(pool.deep_view(), a.deep_view()),
            Err(e) => sp_attr_local_variable_table(pool.deep_view(), name_index, length, payload@) == Err::<
                AttributeV,
                ErrKind,
            >(e.kind),
        },
{
    let ghost pv = pool.deep_view();
    let ghost pl = payload@;
    let mut data = Data::new(payload.as_slice());
    let plen = payload.len();
    let n = data.u2()?;
    let local_variable_table = crate::attrs::parse_local_variables(&mut data, pool, n)?;
    if data.pos() != plen {
        return Err(ParseErr { kind: ErrKind::AttributeLengthMismatch });
    }
    Ok(
        Attribute {
            name_index: name_index,
            length: length,
            info: AttrInfo::LocalVariableTable { local_variable_table },
        },
    )
}

/// Resolve a LocalVariableTypeTable attribute payload.
fn resolve_local_variable_type_table(pool: &Vec<CpEntry>, name_index: u16, length: u32, payload: &Vec<u8>) -> (r:
    Result<Attribute, ParseErr>)
    requires
        valid_ref(pool.deep_view(), name_index, CpKind::Utf8),
    ensures
        match r {
            Ok(a) => sp_attr_local_variable_type_table(pool.deep_view(), name_index, length, payload@) == Ok::<
                AttributeV,
                ErrKind,
            >(a.deep_view()) && wf_attribute(pool.deep_view(), a.deep_view()),
            Err(e) => sp_attr_local_variable_type_table(pool.deep_view(), name_index, length, payload@) == Err::<
                AttributeV,
                ErrKind,
            >(e.kind),
        },
{
    let ghost pv = pool.deep_view();
    let ghost pl = payload@;
    let mut data = Data::new(payload.as_slice());
    let plen = payload.len();
    let n = data.u2()?;
    let local_variable_table = crate::attrs::parse_local_variables(&mut data, pool, n)?;
    if data.pos() != plen {
        return Err(ParseErr { kind: ErrKind::AttributeLengthMismatch });
    }
    Ok(
        Attribute {
            name_index: name_index,
            length: length,
            info: AttrInfo::LocalVariableTypeTable { local_variable_table },
        },
    )
}

/// Resolve a Deprecated attribute payload.
fn resolve_deprecated(pool: &Vec<CpEntry>, name_index: u16, length: u32, payload: &Vec<u8>) -> (r:
    Result<Attribute, ParseErr>)
    requires
        valid_ref(pool.deep_view(), name_index, CpKind::Utf8),
    ensures
        match r {
            Ok(a) => sp_attr_deprecated(pool.deep_view(), name_index, length, payload@) == Ok::<
                AttributeV,
                ErrKind,
            >(a.deep_view()) && wf_attribute(pool.deep_view(), a.deep_view()),
            Err(e) => sp_attr_deprecated(pool.deep_view(), name_index, length, payload@) == Err::<
                AttributeV,
                ErrKind,
            >(e.kind),
        },
{
    let ghost pv = pool.deep_view();
    let ghost pl = payload@;
    let mut data = Data::new(payload.as_slice());
    let plen = payload.len();
    if plen != 0 {
        return Err(ParseErr { kind: ErrKind::AttributeLengthMismatch });
    }
    Ok(Attribute { name_index: name_index, length: length, info: AttrInfo::Deprecated })
}

/// Resolve a RuntimeVisibleAnnotations attribute payload.
fn resolve_runtime_visible_annotations(pool: &Vec<CpEntry>, name_index: u16, length: u32, payload: &Vec<u8>) -> (r:
    Result<Attribute, ParseErr>)
    requires
        valid_ref(pool.deep_view(), name_index, CpKind::Utf8),
    ensures
        match r {
            Ok(a) => sp_attr_runtime_visible_annotations(pool.deep_view(), name_index, length, payload@) == Ok::<
                AttributeV,
                ErrKind,
            >(a.deep_view()) && wf_attribute(pool.deep_view(), a.deep_view()),
            Err(e) => sp_attr_runtime_visible_annotations(pool.deep_view(), name_index, length, payload@) == Err::<
                AttributeV,
                ErrKind,
            >(e.kind),
        },
{
    let ghost pv = pool.deep_view();
    let ghost pl = payload@;
    let mut data = Data::new(payload.as_slice());
    let plen = payload.len();
    let n = data.u2()?;
    let annotations = crate::attrs::parse_annotations(&mut data, pool, n)?;
    if data.pos() != plen {
        return Err(ParseErr { kind: ErrKind::AttributeLengthMismatch });
    }
    Ok(
        Attribute {
            name_index: name_index,
            length: length,
            info: AttrInfo::RuntimeVisibleAnnotations { annotations },
        },
    )
}

/// Resolve a RuntimeInvisibleAnnotations attribute payload.
fn resolve_runtime_invisible_annotations(pool: &Vec<CpEntry>, name_index: u16, length: u32, payload: &Vec<u8>) -> (r:
    Result<Attribute, ParseErr>)
    requires
        valid_ref(pool.deep_view(), name_index, CpKind::Utf8),
    ensures
        match r {
            Ok(a) => sp_attr_runtime_invisible_annotations(pool.deep_view(), name_index, length, payload@) == Ok::<
                AttributeV,
                ErrKind,
            >(a.deep_view()) && wf_attribute(pool.deep_view(), a.deep_view()),
            Err(e) => sp_attr_runtime_invisible_annotations(pool.deep_view(), name_index, length, payload@) == Err::<
                AttributeV,
                ErrKind,
            >(e.kind),
        },
{
    let ghost pv = pool.deep_view();
    let ghost pl = payload@;
    let mut data = Data::new(payload.as_slice());
    let plen = payload.len();
    let n = data.u2()?;
    let annotations = crate::attrs::parse_annotations(&mut data, pool, n)?;
    if data.pos() != plen {
        return Err(ParseErr { kind: ErrKind::AttributeLengthMismatch });
    }
    Ok(
        Attribute {
            name_index: name_index,
            length: length,
            info: AttrInfo::RuntimeInvisibleAnnotations { annotations },
        },
    )
}

/// Resolve a RuntimeVisibleParameterAnnotations attribute payload.
fn resolve_runtime_visible_parameter_annotations(pool: &Vec<CpEntry>, name_index: u16, length: u32, payload: &Vec<u8>) -> (r:
    Result<Attribute, ParseErr>)
    requires
        valid_ref(pool.deep_view(), name_index, CpKind::Utf8),
    ensures
        match r {
            Ok(a) => sp_attr_runtime_visible_parameter_annotations(pool.deep_view(), name_index, length, payload@) == Ok::<
                AttributeV,
                ErrKind,
            >(a.deep_view()) && wf_attribute(pool.deep_view(), a.deep_view()),
            Err(e) => sp_attr_runtime_visible_parameter_annotations(pool.deep_view(), name_index, length, payload@) == Err::<
                AttributeV,
                ErrKind,
            >(e.kind),
        },
{
    let ghost pv = pool.deep_view();
    let ghost pl = payload@;
    let mut data = Data::new(payload.as_slice());
    let plen = payload.len();
    let n = data.u1()?;
    let parameter_annotations = crate::attrs::parse_param_annotations(&mut data, pool, n)?;
    if data.pos() != plen {
        return Err(ParseErr { kind: ErrKind::AttributeLengthMismatch });
    }
    Ok(
        Attribute {
            name_index: name_index,
            length: length,
            info: AttrInfo::RuntimeVisibleParameterAnnotations { parameter_annotations },
        },
    )
}

/// Resolve a RuntimeInvisibleParameterAnnotations attribute payload.
fn resolve_runtime_invisible_parameter_annotations(pool: &Vec<CpEntry>, name_index: u16, length: u32, payload: &Vec<u8>) -> (r:
    Result<Attribute, ParseErr>)
    requires
        valid_ref(pool.deep_view(), name_index, CpKind::Utf8),
    ensures
        match r {
            Ok(a) => sp_attr_runtime_invisible_parameter_annotations(pool.deep_view(), name_index, length, payload@) == Ok::<
                AttributeV,
                ErrKind,
            >(a.deep_view()) && wf_attribute(pool.deep_view(), a.deep_view()),
            Err(e) => sp_attr_runtime_invisible_parameter_annotations(pool.deep_view(), name_index, length, payload@) == Err::<
                AttributeV,
                ErrKind,
            >(e.kind),
        },
{
    let ghost pv = pool.deep_view();
    let ghost pl = payload@;
    let mut data = Data::new(payload.as_slice());
    let plen = payload.len();
    let n = data.u1()?;
    let parameter_annotations = crate::attrs::parse_param_annotations(&mut data, pool, n)?;
    if data.pos() != plen {
        return Err(ParseErr { kind: ErrKind::AttributeLengthMismatch });
    }
    Ok(
        Attribute {
            name_index: name_index,
            length: length,
            info: AttrInfo::RuntimeInvisibleParameterAnnotations { parameter_annotations },
        },
    )
}

/// Resolve a AnnotationDefault attribute payload.
fn resolve_annotation_default(pool: &Vec<CpEntry>, name_index: u16, length: u32, payload: &Vec<u8>) -> (r:
    Result<Attribute, ParseErr>)
    requires
        valid_ref(pool.deep_view(), name_index, CpKind::Utf8),
    ensures
        match r {
            Ok(a) => sp_attr_annotation_default(pool.deep_view(), name_index, length, payload@) == Ok::<
                AttributeV,
                ErrKind,
            >(a.deep_view()) && wf_attribute(pool.deep_view(), a.deep_view()),
            Err(e) => sp_attr_annotation_default(pool.deep_view(), name_index, length, payload@) == Err::<
                AttributeV,
                ErrKind,
            >(e.kind),
        },
{
    let ghost pv = pool.deep_view();
    let ghost pl = payload@;
    let mut data = Data::new(payload.as_slice());
    let plen = payload.len();
    let default_value = crate::model::AnnotationElementValue::parse(&mut data, pool)?;
    if data.pos() != plen {
        return Err(ParseErr { kind: ErrKind::AttributeLengthMismatch });
    }
    Ok(
        Attribute {
            name_index: name_index,
            length: length,
            info: AttrInfo::AnnotationDefault { default_value },
        },
    )
}

/// Resolve a BootstrapMethods attribute payload.
fn resolve_bootstrap_methods(pool: &Vec<CpEntry>, name_index: u16, length: u32, payload: &Vec<u8>) -> (r:
    Result<Attribute, ParseErr>)
    requires
        valid_ref(pool.deep_view(), name_index, CpKind::Utf8),
    ensures
        match r {
            Ok(a) => sp_attr_bootstrap_methods(pool.deep_view(), name_index, length, payload@) == Ok::<
                AttributeV,
                ErrKind,
            >(a.deep_view()) && wf_attribute(pool.deep_view(), a.deep_view()),
            Err(e) => sp_attr_bootstrap_methods(pool.deep_view(), name_index, length, payload@) == Err::<
                AttributeV,
                ErrKind,
            >(e.kind),
        },
{
    let ghost pv = pool.deep_view();
    let ghost pl = payload@;
    let mut data = Data::new(payload.as_slice());
    let plen = payload.len();
    let n = data.u2()?;
    let bootstrap_methods = crate::attrs::parse_bootstrap_methods(&mut data, pool, n)?;
    if data.pos() != plen {
        return Err(ParseErr { kind: ErrKind::AttributeLengthMismatch });
    }
    Ok(
        Attribute {
            name_index: name_index,
            length: length,
            info: AttrInfo::BootstrapMethods { bootstrap_methods },
        },
    )
}

/// Resolve one raw attribute into its typed form: look the name up in the
/// pool and dispatch on it.
pub fn resolve_attribute(pool: &Vec<CpEntry>, raw: &RawAttribute) -> (r: Result<
    Attribute,
    ParseErr,
>)
    ensures
        match r {
            Ok(a) => sp_resolve_attr(pool.deep_view(), raw.name_index, raw.length, raw.payload@)
                == Ok::<AttributeV, ErrKind>(a.deep_view()) && wf_attribute(
                pool.deep_view(),
                a.deep_view(),
            ),
            Err(e) => sp_resolve_attr(pool.deep_view(), raw.name_index, raw.length, raw.payload@)
                == Err::<AttributeV, ErrKind>(e.kind),
        },
    decreases raw.payload@.len(), 2int, 0int,
{
    let ghost pv = pool.deep_view();
    proof {
        assert(pv.len() == pool@.len());
    }
    if raw.name_index == 0 || raw.name_index as usize > pool.len() {
        return Err(ParseErr { kind: ErrKind::PoolOob });
    }
    proof {
        assert(pv[raw.name_index as int - 1] == pool@[raw.name_index as int - 1].deep_view());
    }
    let name = match &pool[raw.name_index as usize - 1] {
        CpEntry::Utf8 { bytes } => bytes,
        _ => {
            return Err(ParseErr { kind: ErrKind::PoolKindMismatch });
        },
    };
    if name_is(name, "ConstantValue") {
        resolve_constant_value(pool, raw.name_index, raw.length, &raw.payload)
    } else if name_is(name, "Code") {
        resolve_code(pool, raw.name_index, raw.length, &raw.payload)
    } else if name_is(name, "StackMapTable") {
        resolve_stack_map_table(pool, raw.name_index, raw.length, &raw.payload)
    } else if name_is(name, "Exceptions") {
        resolve_exceptions(pool, raw.name_index, raw.length, &raw.payload)
    } else if name_is(name, "InnerClasses") {
        resolve_inner_classes(pool, raw.name_index, raw.length, &raw.payload)
    } else if name_is(name, "EnclosingMethod") {
        resolve_enclosing_method(pool, raw.name_index, raw.length, &raw.payload)
    } else if name_is(name, "Synthetic") {
        resolve_synthetic(pool, raw.name_index, raw.length, &raw.payload)
    } else if name_is(name, "Signature") {
        resolve_signature(pool, raw.name_index, raw.length, &raw.payload)
    } else if name_is(name, "SourceFile") {
        resolve_source_file(pool, raw.name_index, raw.length, &raw.payload)
    } else if name_is(name, "SourceDebugExtension") {
        resolve_source_debug_extension(pool, raw.name_index, raw.length, &raw.payload)
    } else if name_is(name, "LineNumberTable") {
        resolve_line_number_table(pool, raw.name_index, raw.length, &raw.payload)
    } else if name_is(name, "LocalVariableTable") {
        resolve_local_variable_table(pool, raw.name_index, raw.length, &raw.payload)
    } else if name_is(name, "LocalVariableTypeTable") {
        resolve_local_variable_type_table(pool, raw.name_index, raw.length, &raw.payload)
    } else if name_is(name, "Deprecated") {
        resolve_deprecated(pool, raw.name_index, raw.length, &raw.payload)
    } else if name_is(name, "RuntimeVisibleAnnotations") {
        resolve_runtime_visible_annotations(pool, raw.name_index, raw.length, &raw.payload)
    } else if name_is(name, "RuntimeInvisibleAnnotations") {
        resolve_runtime_invisible_annotations(pool, raw.name_index, raw.length, &raw.payload)
    } else if name_is(name, "RuntimeVisibleParameterAnnotations") {
        resolve_runtime_visible_parameter_annotations(pool, raw.name_index, raw.length, &raw.payload)
    } else if name_is(name, "RuntimeInvisibleParameterAnnotations") {
        resolve_runtime_invisible_parameter_annotations(pool, raw.name_index, raw.length, &raw.payload)
    } else if name_is(name, "AnnotationDefault") {
        resolve_annotation_default(pool, raw.name_index, raw.length, &raw.payload)
    } else if name_is(name, "BootstrapMethods") {
        resolve_bootstrap_methods(pool, raw.name_index, raw.length, &raw.payload)
    } else {
        Err(ParseErr { kind: ErrKind::UnknownAttribute })
    }
}

/// Resolve a run of raw attributes, in order.
#[verifier::rlimit(100)]
#[verifier::spinoff_prover]
pub fn resolve_attribute_list(
    pool: &Vec<CpEntry>,
    raws: &Vec<RawAttribute>,
    Ghost(bound): Ghost<int>,
) -> (r: Result<Vec<Attribute>, ParseErr>)
    requires
        forall|k: int| 0 <= k < raws.deep_view().len() ==> (#[trigger] raws.deep_view()[k]).payload.len()
            < bound,
    ensures
        match r {
            Ok(v) => sp_resolve_attrs(pool.deep_view(), raws.deep_view(), bound) == Ok::<
                Seq<AttributeV>,
                ErrKind,
            >(v.deep_view()) && (forall|q: int|
                0 <= q < v.deep_view().len() ==> wf_attribute(
                    pool.deep_view(),
                    #[trigger] v.deep_view()[q],
                )),
            Err(e) => sp_resolve_attrs(pool.deep_view(), raws.deep_view(), bound) == Err::<
                Seq<AttributeV>,
                ErrKind,
            >(e.kind),
        },
    decreases bound, 0int, 0int,
{
    let ghost pv = pool.deep_view();
    let ghost rv = raws.deep_view();
    let n = raws.len();
    let mut out: Vec<Attribute> = Vec::new();
    let mut j: usize = 0;
    proof {
        assert(rv.skip(0) =~= rv);
        assert(out.deep_view() =~= Seq::<AttributeV>::empty());
    }
    while j < n
        invariant
            j <= n,
            n == raws@.len(),
            rv == raws.deep_view(),
            rv.len() == n,
            pv == pool.deep_view(),
            forall|k: int| 0 <= k < rv.len() ==> (#[trigger] rv[k]).payload.len() < bound,
            sp_resolve_attrs(pv, rv, bound) == (match sp_resolve_attrs(
                pv,
                rv.skip(j as int),
                bound,
            ) {
                Ok(rest) => Ok::<Seq<AttributeV>, ErrKind>(out.deep_view() + rest),
                Err(k) => Err::<Seq<AttributeV>, ErrKind>(k),
            }),
            forall|q: int| 0 <= q < out.deep_view().len() ==> wf_attribute(
                pv,
                #[trigger] out.deep_view()[q],
            ),
        decreases n - j,
    {
        proof {
            assert(rv[j as int] == raws@[j as int].deep_view());
            assert(rv.skip(j as int)[0] == rv[j as int]);
            assert forall|k: int|
                0 <= k < rv.skip(j as int).len() implies (#[trigger] rv.skip(
                j as int,
            )[k]).payload.len() < bound by {
                assert(rv.skip(j as int)[k] == rv[k + j as int]);
            }
        }
        let ghost out_pre = out.deep_view();
        let a = match resolve_attribute(pool, &raws[j]) {
            Ok(a) => a,
            Err(e) => {
                return Err(e);
            },
        };
        out.push(a);
        j = j + 1;
        proof {
            assert(rv.skip(j as int - 1).drop_first() =~= rv.skip(j as int));
            assert(out.deep_view() =~= out_pre + seq![a.deep_view()]);
            match sp_resolve_attrs(pv, rv.skip(j as int), bound) {
                Ok(rest) => {
                    assert((out_pre + seq![a.deep_view()]) + rest =~= out_pre + (seq![
                        a.deep_view(),
                    ] + rest));
                },
                Err(_) => {},
            }
        }
    }
    proof {
        assert(rv.skip(n as int) =~= Seq::<RawAttributeV>::empty());
        assert(out.deep_view() + Seq::<AttributeV>::empty() =~= out.deep_view());
    }
    Ok(out)
}

// ---------------------------------------------------------------------------
// Members and the whole class
// ---------------------------------------------------------------------------
/// Resolve the attributes of one field or method.
pub open spec fn sp_resolve_member(pool: Seq<CpEntryV>, m: RawMemberV) -> Result<
    MemberInfoV,
    ErrKind,
> {
    match sp_resolve_attrs(pool, m.attributes, attrs_bound(m.attributes)) {
        Err(k) => Err(k),
        Ok(ats) => Ok(
            MemberInfoV {
                access_flags: m.access_flags,
                name_index: m.name_index,
                descriptor_index: m.descriptor_index,
                attributes: ats,
            },
        ),
    }
}

/// Resolve a run of fields or methods, in order.
pub open spec fn sp_resolve_members(pool: Seq<CpEntryV>, ms: Seq<RawMemberV>) -> Result<
    Seq<MemberInfoV>,
    ErrKind,
>
    decreases ms.len(),
{
    if ms.len() == 0 {
        Ok(Seq::empty())
    } else {
        match sp_resolve_member(pool, ms[0]) {
            Err(k) => Err(k),
            Ok(m0) => match sp_resolve_members(pool, ms.drop_first()) {
                Err(k) => Err(k),
                Ok(rest) => Ok(seq![m0] + rest),
            },
        }
    }
}

/// Resolve the attributes of one field or method.
pub fn resolve_member(pool: &Vec<CpEntry>, m: &RawMember) -> (r: Result<MemberInfo, ParseErr>)
    requires
        wf_raw_member(pool.deep_view(), m.deep_view()),
    ensures
        match r {
            Ok(mi) => sp_resolve_member(pool.deep_view(), m.deep_view()) == Ok::<
                MemberInfoV,
                ErrKind,
            >(mi.deep_view()) && wf_member(pool.deep_view(), mi.deep_view()),
            Err(e) => sp_resolve_member(pool.deep_view(), m.deep_view()) == Err::<
                MemberInfoV,
                ErrKind,
            >(e.kind),
        },
{
    proof {
        lemma_attrs_bound(m.attributes.deep_view());
    }
    let attributes = resolve_attribute_list(
        pool,
        &m.attributes,
        Ghost(attrs_bound(m.attributes.deep_view())),
    )?;
    Ok(
        MemberInfo {
            access_flags: m.access_flags,
            name_index: m.name_index,
            descriptor_index: m.descriptor_index,
            attributes,
        },
    )
}

/// Resolve a run of fields or methods, in order.
pub fn resolve_members(pool: &Vec<CpEntry>, ms: &Vec<RawMember>) -> (r: Result<
    Vec<MemberInfo>,
    ParseErr,
>)
    requires
        forall|k: int| 0 <= k < ms.deep_view().len() ==> wf_raw_member(
            pool.deep_view(),
            #[trigger] ms.deep_view()[k],
        ),
    ensures
        match r {
            Ok(v) => sp_resolve_members(pool.deep_view(), ms.deep_view()) == Ok::<
                Seq<MemberInfoV>,
                ErrKind,
            >(v.deep_view()) && (forall|q: int|
                0 <= q < v.deep_view().len() ==> wf_member(
                    pool.deep_view(),
                    #[trigger] v.deep_view()[q],
                )),
            Err(e) => sp_resolve_members(pool.deep_view(), ms.deep_view()) == Err::<
                Seq<MemberInfoV>,
                ErrKind,
            >(e.kind),
        },
{
    let ghost pv = pool.deep_view();
    let ghost mv = ms.deep_view();
    let n = ms.len();
    let mut out: Vec<MemberInfo> = Vec::new();
    let mut j: usize = 0;
    proof {
        assert(mv.skip(0) =~= mv);
        assert(out.deep_view() =~= Seq::<MemberInfoV>::empty());
    }
    while j < n
        invariant
            j <= n,
            n == ms@.len(),
            mv == ms.deep_view(),
            mv.len() == n,
            pv == pool.deep_view(),
            forall|k: int| 0 <= k < mv.len() ==> wf_raw_member(pv, #[trigger] mv[k]),
            sp_resolve_members(pv, mv) == (match sp_resolve_members(pv, mv.skip(j as int)) {
                Ok(rest) => Ok::<Seq<MemberInfoV>, ErrKind>(out.deep_view() + rest),
                Err(k) => Err::<Seq<MemberInfoV>, ErrKind>(k),
            }),
            forall|q: int| 0 <= q < out.deep_view().len() ==> wf_member(
                pv,
                #[trigger] out.deep_view()[q],
            ),
        decreases n - j,
    {
        proof {
            assert(mv[j as int] == ms@[j as int].deep_view());
            assert(mv.skip(j as int)[0] == mv[j as int]);
        }
        let ghost out_pre = out.deep_view();
        let mi = match resolve_member(pool, &ms[j]) {
            Ok(mi) => mi,
            Err(e) => {
                return Err(e);
            },
        };
        out.push(mi);
        j = j + 1;
        proof {
            assert(mv.skip(j as int - 1).drop_first() =~= mv.skip(j as int));
            assert(out.deep_view() =~= out_pre + seq![mi.deep_view()]);
            match sp_resolve_members(pv, mv.skip(j as int)) {
                Ok(rest) => {
                    assert((out_pre + seq![mi.deep_view()]) + rest =~= out_pre + (seq![
                        mi.deep_view(),
                    ] + rest));
                },
                Err(_) => {},
            }
        }
    }
    proof {
        assert(mv.skip(n as int) =~= Seq::<RawMemberV>::empty());
        assert(out.deep_view() + Seq::<MemberInfoV>::empty() =~= out.deep_view());
    }
    Ok(out)
}

/// Resolve every attribute of the envelope: the class's own attributes, then
/// the methods', then the fields'. The first failure aborts; on success no
/// attribute remains in raw form.
pub open spec fn sp_resolve_class(rc: RawClassV) -> Result<ClassFileV, ErrKind> {
    let pool = rc.constant_pool;
    match sp_resolve_attrs(pool, rc.attributes, attrs_bound(rc.attributes)) {
        Err(k) => Err(k),
        Ok(ats) => match sp_resolve_members(pool, rc.methods) {
            Err(k) => Err(k),
            Ok(ms) => match sp_resolve_members(pool, rc.fields) {
                Err(k) => Err(k),
                Ok(fs) => Ok(
                    ClassFileV {
                        magic: rc.magic,
                        minor_version: rc.minor_version,
                        major_version: rc.major_version,
                        constant_pool: pool,
                        access_flags: rc.access_flags,
                        this_class: rc.this_class,
                        super_class: rc.super_class,
                        interfaces: rc.interfaces,
                        fields: fs,
                        methods: ms,
                        attributes: ats,
                    },
                ),
            },
        },
    }
}

/// The bulk resolution pass: turn the envelope into the finished tree.
pub fn resolve_attributes(raw: RawClass) -> (r: Result<ClassFile, ParseErr>)
    requires
        crate::classfile::wf_raw_class(raw.deep_view()),
    ensures
        match r {
            Ok(c) => sp_resolve_class(raw.deep_view()) == Ok::<ClassFileV, ErrKind>(c.deep_view())
                && wf_class_file(c.deep_view()),
            Err(e) => sp_resolve_class(raw.deep_view()) == Err::<ClassFileV, ErrKind>(e.kind),
        },
{
    proof {
        lemma_attrs_bound(raw.attributes.deep_view());
    }
    let attributes = resolve_attribute_list(
        &raw.constant_pool,
        &raw.attributes,
        Ghost(attrs_bound(raw.attributes.deep_view())),
    )?;
    let methods = resolve_members(&raw.constant_pool, &raw.methods)?;
    let fields = resolve_members(&raw.constant_pool, &raw.fields)?;
    Ok(
        ClassFile {
            magic: raw.magic,
            minor_version: raw.minor_version,
            major_version: raw.major_version,
            constant_pool: raw.constant_pool,
            access_flags: raw.access_flags,
            this_class: raw.this_class,
            super_class: raw.super_class,
            interfaces: raw.interfaces,
            fields,
            methods,
            attributes,
        },
    )
}

} // verus!
