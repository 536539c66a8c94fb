use vstd::prelude::*;

use crate::cursor::{
    compose_run, lemma_compose_run_assoc, lemma_compose_run_done, lemma_compose_run_nil, sp_u16,
    sp_u8, Data, PRes,
};
use crate::err::{ErrKind, ParseErr};
use crate::model::{
    dv_ev_seq, dv_pair_seq, wf_annotation, wf_ev, wf_ev_pair, wf_frame, wf_inner_class,
    wf_local_variable, wf_vti, Annotation, AnnotationElementValue, AnnotationElementValuePair,
    AnnotationElementValuePairV, AnnotationElementValueV, AnnotationV, AnnotationValue,
    AnnotationValueV, CodeException, InnerClass, LineNumber, LocalVariableEntry, StackMapFrame,
    StackMapFrameV, VerificationTypeInfo,
};
use crate::pool::{
    sp_cp_ref, sp_cp_ref_any, sp_cp_ref_opt, valid_any_ref, valid_ref, CpEntry, CpEntryV, CpKind,
};

verus! {

// ---------------------------------------------------------------------------
// Annotations: specification-level decoding
// ---------------------------------------------------------------------------
/// The element value tags that carry a single constant pool index.
pub open spec fn const_value_tag(tag: u8) -> bool {
    tag == 66 || tag == 67 || tag == 68 || tag == 70 || tag == 73 || tag == 74 || tag == 83 || tag
        == 90 || tag == 115
}

/// Decode one element value: an ASCII tag byte, then the tagged payload.
/// Nested annotations and arrays recurse; the input shrinks at every step.
pub open spec fn sp_element_value(s: Seq<u8>, i: int, pool: Seq<CpEntryV>) -> PRes<
    AnnotationElementValueV,
>
    decreases s.len() - i, 0int,
{
    match sp_u8(s, i) {
        PRes::PFail(k) => PRes::PFail(k),
        PRes::POk(tag, j) => if const_value_tag(tag) {
            match sp_cp_ref_any(s, j, pool) {
                PRes::PFail(k) => PRes::PFail(k),
                PRes::POk(idx, j2) => PRes::POk(
                    AnnotationElementValueV {
                        tag,
                        value: AnnotationValueV::ConstValueIndex { index: idx },
                    },
                    j2,
                ),
            }
        } else if tag == 101 {
            match sp_cp_ref(s, j, pool, CpKind::Utf8) {
                PRes::PFail(k) => PRes::PFail(k),
                PRes::POk(t, j2) => match sp_cp_ref(s, j2, pool, CpKind::Utf8) {
                    PRes::PFail(k) => PRes::PFail(k),
                    PRes::POk(c, j3) => PRes::POk(
                        AnnotationElementValueV {
                            tag,
                            value: AnnotationValueV::EnumConstValue {
                                type_name_index: t,
                                const_name_index: c,
                            },
                        },
                        j3,
                    ),
                },
            }
        } else if tag == 99 {
            match sp_cp_ref(s, j, pool, CpKind::Utf8) {
                PRes::PFail(k) => PRes::PFail(k),
                PRes::POk(idx, j2) => PRes::POk(
                    AnnotationElementValueV {
                        tag,
                        value: AnnotationValueV::ClassInfoIndex { index: idx },
                    },
                    j2,
                ),
            }
        } else if tag == 64 {
            match sp_annotation(s, j, pool) {
                PRes::PFail(k) => PRes::PFail(k),
                PRes::POk(a, j2) => PRes::POk(
                    AnnotationElementValueV {
                        tag,
                        value: AnnotationValueV::AnnotationValue { annotation: Box::new(a) },
                    },
                    j2,
                ),
            }
        } else if tag == 91 {
            match sp_u16(s, j) {
                PRes::PFail(k) => PRes::PFail(k),
                PRes::POk(n, j2) => match sp_ev_vec(s, j2, pool, n as int) {
                    PRes::PFail(k) => PRes::PFail(k),
                    PRes::POk(vs, j3) => PRes::POk(
                        AnnotationElementValueV {
                            tag,
                            value: AnnotationValueV::ArrayValue { values: vs },
                        },
                        j3,
                    ),
                },
            }
        } else {
            PRes::PFail(ErrKind::UnknownAnnotationValueTag)
        },
    }
}

/// Decode a run of `n` element values.
pub open spec fn sp_ev_vec(s: Seq<u8>, i: int, pool: Seq<CpEntryV>, n: int) -> PRes<
    Seq<AnnotationElementValueV>,
>
    decreases s.len() - i, 2int,
{
    if n <= 0 {
        PRes::POk(Seq::empty(), i)
    } else {
        match sp_element_value(s, i, pool) {
            PRes::PFail(k) => PRes::PFail(k),
            PRes::POk(v, end) => if i < end && end <= s.len() {
                compose_run(seq![v], sp_ev_vec(s, end, pool, n - 1))
            } else {
                PRes::PFail(ErrKind::Truncated)
            },
        }
    }
}

/// Decode one element value pair: a Utf8 name reference, then the value.
pub open spec fn sp_ev_pair(s: Seq<u8>, i: int, pool: Seq<CpEntryV>) -> PRes<
    AnnotationElementValuePairV,
>
    decreases s.len() - i, 0int,
{
    match sp_cp_ref(s, i, pool, CpKind::Utf8) {
        PRes::PFail(k) => PRes::PFail(k),
        PRes::POk(nm, j) => match sp_element_value(s, j, pool) {
            PRes::PFail(k) => PRes::PFail(k),
            PRes::POk(v, j2) => PRes::POk(
                AnnotationElementValuePairV { element_name_index: nm, value: v },
                j2,
            ),
        },
    }
}

/// Decode a run of `n` element value pairs.
pub open spec fn sp_pair_vec(s: Seq<u8>, i: int, pool: Seq<CpEntryV>, n: int) -> PRes<
    Seq<AnnotationElementValuePairV>,
>
    decreases s.len() - i, 2int,
{
    if n <= 0 {
        PRes::POk(Seq::empty(), i)
    } else {
        match sp_ev_pair(s, i, pool) {
            PRes::PFail(k) => PRes::PFail(k),
            PRes::POk(p, end) => if i < end && end <= s.len() {
                compose_run(seq![p], sp_pair_vec(s, end, pool, n - 1))
            } else {
                PRes::PFail(ErrKind::Truncated)
            },
        }
    }
}

/// Decode one annotation: a Utf8 type reference, a pair count, then that
/// many element value pairs.
pub open spec fn sp_annotation(s: Seq<u8>, i: int, pool: Seq<CpEntryV>) -> PRes<AnnotationV>
    decreases s.len() - i, 1int,
{
    match sp_cp_ref(s, i, pool, CpKind::Utf8) {
        PRes::PFail(k) => PRes::PFail(k),
        PRes::POk(ti, j) => match sp_u16(s, j) {
            PRes::PFail(k) => PRes::PFail(k),
            PRes::POk(n, j2) => match sp_pair_vec(s, j2, pool, n as int) {
                PRes::PFail(k) => PRes::PFail(k),
                PRes::POk(ps, j3) => PRes::POk(
                    AnnotationV { type_index: ti, element_value_pairs: ps },
                    j3,
                ),
            },
        },
    }
}

// ---------------------------------------------------------------------------
// Helpers relating the sequence models to pushes and elements
// ---------------------------------------------------------------------------
/// Appending an element value extends its model run.
pub proof fn lemma_dv_ev_seq_push(v: Seq<AnnotationElementValue>, x: AnnotationElementValue)
    ensures
        dv_ev_seq(v.push(x)) == dv_ev_seq(v) + seq![x.deep_view()],
    decreases v.len(),
{
    reveal_with_fuel(dv_ev_seq, 3);
    if v.len() == 0 {
        assert(v.push(x)[0] == x);
        assert(v.push(x).drop_first() =~= Seq::<AnnotationElementValue>::empty());
        assert(seq![x.deep_view()] + Seq::<AnnotationElementValueV>::empty() =~= seq![
            x.deep_view(),
        ]);
        assert(dv_ev_seq(v) + seq![x.deep_view()] =~= seq![x.deep_view()]);
    } else {
        lemma_dv_ev_seq_push(v.drop_first(), x);
        assert(v.push(x).drop_first() =~= v.drop_first().push(x));
        assert(v.push(x)[0] == v[0]);
        assert((seq![v[0].deep_view()] + dv_ev_seq(v.drop_first())) + seq![x.deep_view()] =~= seq![
            v[0].deep_view(),
        ] + (dv_ev_seq(v.drop_first()) + seq![x.deep_view()]));
    }
}

/// The model run of element values is the elementwise model.
pub proof fn lemma_dv_ev_seq_elts(v: Seq<AnnotationElementValue>)
    ensures
        dv_ev_seq(v).len() == v.len(),
        forall|q: int| 0 <= q < v.len() ==> dv_ev_seq(v)[q] == v[q].deep_view(),
    decreases v.len(),
{
    reveal_with_fuel(dv_ev_seq, 3);
    if v.len() > 0 {
        lemma_dv_ev_seq_elts(v.drop_first());
        assert(dv_ev_seq(v) == seq![v[0].deep_view()] + dv_ev_seq(v.drop_first()));
        assert forall|q: int| 0 <= q < v.len() implies dv_ev_seq(v)[q] == v[q].deep_view() by {
            if q > 0 {
                assert(dv_ev_seq(v)[q] == dv_ev_seq(v.drop_first())[q - 1]);
                assert(v.drop_first()[q - 1] == v[q]);
            }
        }
    }
}

/// Appending an element value pair extends its model run.
pub proof fn lemma_dv_pair_seq_push(
    v: Seq<AnnotationElementValuePair>,
    x: AnnotationElementValuePair,
)
    ensures
        dv_pair_seq(v.push(x)) == dv_pair_seq(v) + seq![x.deep_view()],
    decreases v.len(),
{
    reveal_with_fuel(dv_pair_seq, 3);
    if v.len() == 0 {
        assert(v.push(x)[0] == x);
        assert(v.push(x).drop_first() =~= Seq::<AnnotationElementValuePair>::empty());
        assert(seq![x.deep_view()] + Seq::<AnnotationElementValuePairV>::empty() =~= seq![
            x.deep_view(),
        ]);
        assert(dv_pair_seq(v) + seq![x.deep_view()] =~= seq![x.deep_view()]);
    } else {
        lemma_dv_pair_seq_push(v.drop_first(), x);
        assert(v.push(x).drop_first() =~= v.drop_first().push(x));
        assert(v.push(x)[0] == v[0]);
        assert((seq![v[0].deep_view()] + dv_pair_seq(v.drop_first())) + seq![x.deep_view()] =~=
            seq![v[0].deep_view()] + (dv_pair_seq(v.drop_first()) + seq![x.deep_view()]));
    }
}

/// The model run of element value pairs is the elementwise model.
pub proof fn lemma_dv_pair_seq_elts(v: Seq<AnnotationElementValuePair>)
    ensures
        dv_pair_seq(v).len() == v.len(),
        forall|q: int| 0 <= q < v.len() ==> dv_pair_seq(v)[q] == v[q].deep_view(),
    decreases v.len(),
{
    reveal_with_fuel(dv_pair_seq, 3);
    if v.len() > 0 {
        lemma_dv_pair_seq_elts(v.drop_first());
        assert(dv_pair_seq(v) == seq![v[0].deep_view()] + dv_pair_seq(v.drop_first()));
        assert forall|q: int| 0 <= q < v.len() implies dv_pair_seq(v)[q] == v[q].deep_view() by {
            if q > 0 {
                assert(dv_pair_seq(v)[q] == dv_pair_seq(v.drop_first())[q - 1]);
                assert(v.drop_first()[q - 1] == v[q]);
            }
        }
    }
}

// ---------------------------------------------------------------------------
// Annotations: executable decoding
// ---------------------------------------------------------------------------
impl Annotation {
    /// Decode one annotation.
    pub fn parse(data: &mut Data, pool: &Vec<CpEntry>) -> (r: Result<Annotation, ParseErr>)
        requires
            old(data).wf(),
        ensures
            final(data).wf(),
            final(data).sbytes() == old(data).sbytes(),
            old(data).at() <= final(data).at(),
            match r {
                Ok(v) => sp_annotation(old(data).sbytes(), old(data).at(), pool.deep_view())
                    == PRes::<AnnotationV>::POk(v.deep_view(), final(data).at()) && old(data).at()
                    < final(data).at() && wf_annotation(pool.deep_view(), v.deep_view()),
                Err(e) => sp_annotation(old(data).sbytes(), old(data).at(), pool.deep_view())
                    == PRes::<AnnotationV>::PFail(e.kind),
            },
        decreases old(data).remaining(),
    {
        let ghost s = old(data).sbytes();
        let ghost i0 = old(data).at();
        let ghost pv = pool.deep_view();
        let type_index = data.cp(pool, CpKind::Utf8)?;
        let n = data.u2()?;
        let ghost j2 = data.at();
        let mut pairs: Vec<AnnotationElementValuePair> = Vec::new();
        let mut k: u16 = 0;
        proof {
            assert(dv_pair_seq(pairs@) =~= Seq::<AnnotationElementValuePairV>::empty());
            crate::cursor::lemma_compose_run_nil(sp_pair_vec(s, j2, pv, n as int));
        }
        while k < n
            invariant
                data.wf(),
                s == old(data).sbytes(),
                data.sbytes() == s,
                i0 == old(data).at(),
                0 <= i0,
                i0 < j2,
                j2 <= data.at(),
                data.at() <= s.len(),
                k <= n,
                pv == pool.deep_view(),
                sp_cp_ref(s, i0, pv, CpKind::Utf8) == PRes::<u16>::POk(type_index, i0 + 2),
                sp_u16(s, i0 + 2) == PRes::<u16>::POk(n, j2),
                sp_pair_vec(s, j2, pv, n as int) == compose_run(
                    dv_pair_seq(pairs@),
                    sp_pair_vec(s, data.at(), pv, n as int - k as int),
                ),
                forall|q: int| 0 <= q < pairs@.len() ==> wf_ev_pair(
                    pv,
                    #[trigger] pairs@[q].deep_view(),
                ),
            decreases n - k,
        {
            let ghost cur = data.at();
            let ghost pairs_pre = pairs@;
            let p = match AnnotationElementValuePair::parse(data, pool) {
                Ok(p) => p,
                Err(e) => {
                    return Err(e);
                },
            };
            proof {
                lemma_dv_pair_seq_push(pairs_pre, p);
                lemma_compose_run_assoc(
                    dv_pair_seq(pairs_pre),
                    seq![p.deep_view()],
                    sp_pair_vec(s, data.at(), pv, n as int - k as int - 1),
                );
            }
            pairs.push(p);
            k = k + 1;
        }
        proof {
            lemma_compose_run_done(dv_pair_seq(pairs@), data.at());
            lemma_dv_pair_seq_elts(pairs@);
        }
        Ok(Annotation { type_index, element_value_pairs: pairs })
    }
}

impl AnnotationElementValuePair {
    /// Decode one element value pair.
    pub fn parse(data: &mut Data, pool: &Vec<CpEntry>) -> (r: Result<
        AnnotationElementValuePair,
        ParseErr,
    >)
        requires
            old(data).wf(),
        ensures
            final(data).wf(),
            final(data).sbytes() == old(data).sbytes(),
            old(data).at() <= final(data).at(),
            match r {
                Ok(v) => sp_ev_pair(old(data).sbytes(), old(data).at(), pool.deep_view())
                    == PRes::<AnnotationElementValuePairV>::POk(v.deep_view(), final(data).at())
                    && old(data).at() < final(data).at() && wf_ev_pair(
                    pool.deep_view(),
                    v.deep_view(),
                ),
                Err(e) => sp_ev_pair(old(data).sbytes(), old(data).at(), pool.deep_view())
                    == PRes::<AnnotationElementValuePairV>::PFail(e.kind),
            },
        decreases old(data).remaining(),
    {
        let element_name_index = data.cp(pool, CpKind::Utf8)?;
        let value = AnnotationElementValue::parse(data, pool)?;
        Ok(AnnotationElementValuePair { element_name_index, value })
    }
}

impl AnnotationElementValue {
    /// Decode one element value: the tag byte, then the payload it selects.
    pub fn parse(data: &mut Data, pool: &Vec<CpEntry>) -> (r: Result<
        AnnotationElementValue,
        ParseErr,
    >)
        requires
            old(data).wf(),
        ensures
            final(data).wf(),
            final(data).sbytes() == old(data).sbytes(),
            old(data).at() <= final(data).at(),
            match r {
                Ok(v) => sp_element_value(old(data).sbytes(), old(data).at(), pool.deep_view())
                    == PRes::<AnnotationElementValueV>::POk(v.deep_view(), final(data).at())
                    && old(data).at() < final(data).at() && wf_ev(pool.deep_view(), v.deep_view()),
                Err(e) => sp_element_value(old(data).sbytes(), old(data).at(), pool.deep_view())
                    == PRes::<AnnotationElementValueV>::PFail(e.kind),
            },
        decreases old(data).remaining(),
    {
        let ghost s = old(data).sbytes();
        let ghost i0 = old(data).at();
        let ghost pv = pool.deep_view();
        let tag = data.u1()?;
        if tag == 66 || tag == 67 || tag == 68 || tag == 70 || tag == 73 || tag == 74 || tag == 83
            || tag == 90 || tag == 115 {
            let index = data.cp_any(pool)?;
            Ok(
                AnnotationElementValue {
                    tag,
                    value: AnnotationValue::ConstValueIndex { index },
                },
            )
        } else if tag == 101 {
            let type_name_index = data.cp(pool, CpKind::Utf8)?;
            let const_name_index = data.cp(pool, CpKind::Utf8)?;
            Ok(
                AnnotationElementValue {
                    tag,
                    value: AnnotationValue::EnumConstValue { type_name_index, const_name_index },
                },
            )
        } else if tag == 99 {
            let index = data.cp(pool, CpKind::Utf8)?;
            Ok(AnnotationElementValue { tag, value: AnnotationValue::ClassInfoIndex { index } })
        } else if tag == 64 {
            let a = Annotation::parse(data, pool)?;
            Ok(
                AnnotationElementValue {
                    tag,
                    value: AnnotationValue::AnnotationValue { annotation: Box::new(a) },
                },
            )
        } else if tag == 91 {
            let n = data.u2()?;
            let ghost j2 = data.at();
            let mut values: Vec<AnnotationElementValue> = Vec::new();
            let mut k: u16 = 0;
            proof {
                assert(dv_ev_seq(values@) =~= Seq::<AnnotationElementValueV>::empty());
                crate::cursor::lemma_compose_run_nil(sp_ev_vec(s, j2, pv, n as int));
            }
            while k < n
                invariant
                    data.wf(),
                    s == old(data).sbytes(),
                    data.sbytes() == s,
                    i0 == old(data).at(),
                    0 <= i0,
                    i0 + 3 <= j2,
                    j2 <= data.at(),
                    data.at() <= s.len(),
                    k <= n,
                    tag == 91,
                    pv == pool.deep_view(),
                    sp_u8(s, i0) == PRes::<u8>::POk(tag, i0 + 1),
                    sp_u16(s, i0 + 1) == PRes::<u16>::POk(n, j2),
                    sp_ev_vec(s, j2, pv, n as int) == compose_run(
                        dv_ev_seq(values@),
                        sp_ev_vec(s, data.at(), pv, n as int - k as int),
                    ),
                    forall|q: int| 0 <= q < values@.len() ==> wf_ev(
                        pv,
                        #[trigger] values@[q].deep_view(),
                    ),
                decreases n - k,
            {
                let ghost values_pre = values@;
                let v = match AnnotationElementValue::parse(data, pool) {
                    Ok(v) => v,
                    Err(e) => {
                        return Err(e);
                    },
                };
                proof {
                    lemma_dv_ev_seq_push(values_pre, v);
                    lemma_compose_run_assoc(
                        dv_ev_seq(values_pre),
                        seq![v.deep_view()],
                        sp_ev_vec(s, data.at(), pv, n as int - k as int - 1),
                    );
                }
                values.push(v);
                k = k + 1;
            }
            proof {
                lemma_compose_run_done(dv_ev_seq(values@), data.at());
                lemma_dv_ev_seq_elts(values@);
            }
            Ok(AnnotationElementValue { tag, value: AnnotationValue::ArrayValue { values } })
        } else {
            Err(ParseErr { kind: ErrKind::UnknownAnnotationValueTag })
        }
    }
}

// ---------------------------------------------------------------------------
// Verification types and stack map frames
// ---------------------------------------------------------------------------
/// Decode one verification type: a tag in 0..=8, with a Class reference for
/// Object and an offset for Uninitialized.
pub open spec fn sp_vti(s: Seq<u8>, i: int, pool: Seq<CpEntryV>) -> PRes<VerificationTypeInfo> {
    match sp_u8(s, i) {
        PRes::PFail(k) => PRes::PFail(k),
        PRes::POk(tag, j) => if tag == 0 {
            PRes::POk(VerificationTypeInfo::Top, j)
        } else if tag == 1 {
            PRes::POk(VerificationTypeInfo::Integer, j)
        } else if tag == 2 {
            PRes::POk(VerificationTypeInfo::Float, j)
        } else if tag == 3 {
            PRes::POk(VerificationTypeInfo::Double, j)
        } else if tag == 4 {
            PRes::POk(VerificationTypeInfo::Long, j)
        } else if tag == 5 {
            PRes::POk(VerificationTypeInfo::Null, j)
        } else if tag == 6 {
            PRes::POk(VerificationTypeInfo::UninitializedThis, j)
        } else if tag == 7 {
            match sp_cp_ref(s, j, pool, CpKind::Class) {
                PRes::PFail(k) => PRes::PFail(k),
                PRes::POk(idx, j2) => PRes::POk(
                    VerificationTypeInfo::Object { cpool_index: idx },
                    j2,
                ),
            }
        } else if tag == 8 {
            match sp_u16(s, j) {
                PRes::PFail(k) => PRes::PFail(k),
                PRes::POk(off, j2) => PRes::POk(
                    VerificationTypeInfo::Uninitialized { offset: off },
                    j2,
                ),
            }
        } else {
            PRes::PFail(ErrKind::UnknownVerificationTag)
        },
    }
}

/// Decode a run of `n` verification types.
pub open spec fn sp_vti_vec(s: Seq<u8>, i: int, pool: Seq<CpEntryV>, n: int) -> PRes<
    Seq<VerificationTypeInfo>,
>
    decreases n,
{
    if n <= 0 {
        PRes::POk(Seq::empty(), i)
    } else {
        match sp_vti(s, i, pool) {
            PRes::PFail(k) => PRes::PFail(k),
            PRes::POk(v, end) => compose_run(seq![v], sp_vti_vec(s, end, pool, n - 1)),
        }
    }
}

/// Decode one stack map frame, dispatching on the frame type byte. The
/// reserved range 128..=246 is rejected.
pub open spec fn sp_frame(s: Seq<u8>, i: int, pool: Seq<CpEntryV>) -> PRes<StackMapFrameV> {
    match sp_u8(s, i) {
        PRes::PFail(k) => PRes::PFail(k),
        PRes::POk(ft, j) => if ft <= 63 {
            PRes::POk(StackMapFrameV::SameFrame { frame_type: ft }, j)
        } else if ft <= 127 {
            match sp_vti(s, j, pool) {
                PRes::PFail(k) => PRes::PFail(k),
                PRes::POk(v, j2) => PRes::POk(
                    StackMapFrameV::SameLocals1StackItemFrame { frame_type: ft, stack: v },
                    j2,
                ),
            }
        } else if ft <= 246 {
            PRes::PFail(ErrKind::UnknownFrameType)
        } else if ft == 247 {
            match sp_u16(s, j) {
                PRes::PFail(k) => PRes::PFail(k),
                PRes::POk(off, j2) => match sp_vti(s, j2, pool) {
                    PRes::PFail(k) => PRes::PFail(k),
                    PRes::POk(v, j3) => PRes::POk(
                        StackMapFrameV::SameLocals1StackItemFrameExtended {
                            frame_type: ft,
                            offset_delta: off,
                            stack: v,
                        },
                        j3,
                    ),
                },
            }
        } else if ft <= 250 {
            match sp_u16(s, j) {
                PRes::PFail(k) => PRes::PFail(k),
                PRes::POk(off, j2) => PRes::POk(
                    StackMapFrameV::ChopFrame { frame_type: ft, offset_delta: off },
                    j2,
                ),
            }
        } else if ft == 251 {
            match sp_u16(s, j) {
                PRes::PFail(k) => PRes::PFail(k),
                PRes::POk(off, j2) => PRes::POk(
                    StackMapFrameV::SameFrameExtended { frame_type: ft, offset_delta: off },
                    j2,
                ),
            }
        } else if ft <= 254 {
            match sp_u16(s, j) {
                PRes::PFail(k) => PRes::PFail(k),
                PRes::POk(off, j2) => match sp_vti_vec(s, j2, pool, ft - 251) {
                    PRes::PFail(k) => PRes::PFail(k),
                    PRes::POk(ls, j3) => PRes::POk(
                        StackMapFrameV::AppendFrame {
                            frame_type: ft,
                            offset_delta: off,
                            locals: ls,
                        },
                        j3,
                    ),
                },
            }
        } else {
            match sp_u16(s, j) {
                PRes::PFail(k) => PRes::PFail(k),
                PRes::POk(off, j2) => match sp_u16(s, j2) {
                    PRes::PFail(k) => PRes::PFail(k),
                    PRes::POk(nl, j3) => match sp_vti_vec(s, j3, pool, nl as int) {
                        PRes::PFail(k) => PRes::PFail(k),
                        PRes::POk(ls, j4) => match sp_u16(s, j4) {
                            PRes::PFail(k) => PRes::PFail(k),
                            PRes::POk(ns, j5) => match sp_vti_vec(s, j5, pool, ns as int) {
                                PRes::PFail(k) => PRes::PFail(k),
                                PRes::POk(st, j6) => PRes::POk(
                                    StackMapFrameV::FullFrame {
                                        frame_type: ft,
                                        offset_delta: off,
                                        locals: ls,
                                        stack: st,
                                    },
                                    j6,
                                ),
                            },
                        },
                    },
                },
            }
        },
    }
}

/// Decode a run of `n` stack map frames.
pub open spec fn sp_frames(s: Seq<u8>, i: int, pool: Seq<CpEntryV>, n: int) -> PRes<
    Seq<StackMapFrameV>,
>
    decreases n,
{
    if n <= 0 {
        PRes::POk(Seq::empty(), i)
    } else {
        match sp_frame(s, i, pool) {
            PRes::PFail(k) => PRes::PFail(k),
            PRes::POk(f, end) => compose_run(seq![f], sp_frames(s, end, pool, n - 1)),
        }
    }
}

/// Decode one verification type.
pub fn parse_vti(data: &mut Data, pool: &Vec<CpEntry>) -> (r: Result<
    VerificationTypeInfo,
    ParseErr,
>)
    requires
        old(data).wf(),
    ensures
        final(data).wf(),
        final(data).sbytes() == old(data).sbytes(),
        old(data).at() <= final(data).at(),
        match r {
            Ok(v) => sp_vti(old(data).sbytes(), old(data).at(), pool.deep_view()) == PRes::<
                VerificationTypeInfo,
            >::POk(v, final(data).at()) && wf_vti(pool.deep_view(), v),
            Err(e) => sp_vti(old(data).sbytes(), old(data).at(), pool.deep_view()) == PRes::<
                VerificationTypeInfo,
            >::PFail(e.kind),
        },
{
    let tag = data.u1()?;
    match tag {
        0 => Ok(VerificationTypeInfo::Top),
        1 => Ok(VerificationTypeInfo::Integer),
        2 => Ok(VerificationTypeInfo::Float),
        3 => Ok(VerificationTypeInfo::Double),
        4 => Ok(VerificationTypeInfo::Long),
        5 => Ok(VerificationTypeInfo::Null),
        6 => Ok(VerificationTypeInfo::UninitializedThis),
        7 => {
            let cpool_index = data.cp(pool, CpKind::Class)?;
            Ok(VerificationTypeInfo::Object { cpool_index })
        },
        8 => {
            let offset = data.u2()?;
            Ok(VerificationTypeInfo::Uninitialized { offset })
        },
        _ => Err(ParseErr { kind: ErrKind::UnknownVerificationTag }),
    }
}

/// Decode a run of `n` verification types.
pub fn parse_vtis(data: &mut Data, pool: &Vec<CpEntry>, n: u16) -> (r: Result<
    Vec<VerificationTypeInfo>,
    ParseErr,
>)
    requires
        old(data).wf(),
    ensures
        final(data).wf(),
        final(data).sbytes() == old(data).sbytes(),
        old(data).at() <= final(data).at(),
        match r {
            Ok(v) => sp_vti_vec(old(data).sbytes(), old(data).at(), pool.deep_view(), n as int)
                == PRes::<Seq<VerificationTypeInfo>>::POk(v.deep_view(), final(data).at()) && (
            forall|q: int|
                0 <= q < v.deep_view().len() ==> wf_vti(
                    pool.deep_view(),
                    #[trigger] v.deep_view()[q],
                )),
            Err(e) => sp_vti_vec(old(data).sbytes(), old(data).at(), pool.deep_view(), n as int)
                == PRes::<Seq<VerificationTypeInfo>>::PFail(e.kind),
        },
{
    let ghost s = old(data).sbytes();
    let ghost i0 = old(data).at();
    let ghost pv = pool.deep_view();
    let mut v: Vec<VerificationTypeInfo> = Vec::new();
    let mut k: u16 = 0;
    proof {
        assert(v.deep_view() =~= Seq::<VerificationTypeInfo>::empty());
        lemma_compose_run_nil(sp_vti_vec(s, i0, pv, n as int));
    }
    while k < n
        invariant
            data.wf(),
            s == old(data).sbytes(),
            data.sbytes() == s,
            i0 == old(data).at(),
            i0 <= data.at(),
            data.at() <= s.len(),
            k <= n,
            pv == pool.deep_view(),
            sp_vti_vec(s, i0, pv, n as int) == compose_run(
                v.deep_view(),
                sp_vti_vec(s, data.at(), pv, n as int - k as int),
            ),
            forall|q: int| 0 <= q < v.deep_view().len() ==> wf_vti(pv, #[trigger] v.deep_view()[q]),
        decreases n - k,
    {
        let ghost v_pre = v.deep_view();
        let x = match parse_vti(data, pool) {
            Ok(x) => x,
            Err(e) => {
                return Err(e);
            },
        };
        proof {
            lemma_compose_run_assoc(
                v_pre,
                seq![x],
                sp_vti_vec(s, data.at(), pv, n as int - k as int - 1),
            );
        }
        v.push(x);
        k = k + 1;
        proof {
            assert(v.deep_view() =~= v_pre + seq![x]);
        }
    }
    proof {
        lemma_compose_run_done(v.deep_view(), data.at());
    }
    Ok(v)
}

/// Decode one stack map frame.
pub fn parse_frame(data: &mut Data, pool: &Vec<CpEntry>) -> (r: Result<StackMapFrame, ParseErr>)
    requires
        old(data).wf(),
    ensures
        final(data).wf(),
        final(data).sbytes() == old(data).sbytes(),
        old(data).at() <= final(data).at(),
        match r {
            Ok(f) => sp_frame(old(data).sbytes(), old(data).at(), pool.deep_view()) == PRes::<
                StackMapFrameV,
            >::POk(f.deep_view(), final(data).at()) && wf_frame(pool.deep_view(), f.deep_view()),
            Err(e) => sp_frame(old(data).sbytes(), old(data).at(), pool.deep_view()) == PRes::<
                StackMapFrameV,
            >::PFail(e.kind),
        },
{
    let frame_type = data.u1()?;
    if frame_type <= 63 {
        Ok(StackMapFrame::SameFrame { frame_type })
    } else if frame_type <= 127 {
        let stack = parse_vti(data, pool)?;
        Ok(StackMapFrame::SameLocals1StackItemFrame { frame_type, stack })
    } else if frame_type <= 246 {
        Err(ParseErr { kind: ErrKind::UnknownFrameType })
    } else if frame_type == 247 {
        let offset_delta = data.u2()?;
        let stack = parse_vti(data, pool)?;
        Ok(StackMapFrame::SameLocals1StackItemFrameExtended { frame_type, offset_delta, stack })
    } else if frame_type <= 250 {
        let offset_delta = data.u2()?;
        Ok(StackMapFrame::ChopFrame { frame_type, offset_delta })
    } else if frame_type == 251 {
        let offset_delta = data.u2()?;
        Ok(StackMapFrame::SameFrameExtended { frame_type, offset_delta })
    } else if frame_type <= 254 {
        let offset_delta = data.u2()?;
        let locals = parse_vtis(data, pool, (frame_type - 251) as u16)?;
        Ok(StackMapFrame::AppendFrame { frame_type, offset_delta, locals })
    } else {
        let offset_delta = data.u2()?;
        let nl = data.u2()?;
        let locals = parse_vtis(data, pool, nl)?;
        let ns = data.u2()?;
        let stack = parse_vtis(data, pool, ns)?;
        Ok(StackMapFrame::FullFrame { frame_type, offset_delta, locals, stack })
    }
}

/// Decode a run of `n` stack map frames.
pub fn parse_frames(data: &mut Data, pool: &Vec<CpEntry>, n: u16) -> (r: Result<
    Vec<StackMapFrame>,
    ParseErr,
>)
    requires
        old(data).wf(),
    ensures
        final(data).wf(),
        final(data).sbytes() == old(data).sbytes(),
        old(data).at() <= final(data).at(),
        match r {
            Ok(v) => sp_frames(old(data).sbytes(), old(data).at(), pool.deep_view(), n as int)
                == PRes::<Seq<StackMapFrameV>>::POk(v.deep_view(), final(data).at()) && (forall|
                q: int,
            |
                0 <= q < v.deep_view().len() ==> wf_frame(
                    pool.deep_view(),
                    #[trigger] v.deep_view()[q],
                )),
            Err(e) => sp_frames(old(data).sbytes(), old(data).at(), pool.deep_view(), n as int)
                == PRes::<Seq<StackMapFrameV>>::PFail(e.kind),
        },
{
    let ghost s = old(data).sbytes();
    let ghost i0 = old(data).at();
    let ghost pv = pool.deep_view();
    let mut v: Vec<StackMapFrame> = Vec::new();
    let mut k: u16 = 0;
    proof {
        assert(v.deep_view() =~= Seq::<StackMapFrameV>::empty());
        lemma_compose_run_nil(sp_frames(s, i0, pv, n as int));
    }
    while k < n
        invariant
            data.wf(),
            s == old(data).sbytes(),
            data.sbytes() == s,
            i0 == old(data).at(),
            i0 <= data.at(),
            data.at() <= s.len(),
            k <= n,
            pv == pool.deep_view(),
            sp_frames(s, i0, pv, n as int) == compose_run(
                v.deep_view(),
                sp_frames(s, data.at(), pv, n as int - k as int),
            ),
            forall|q: int| 0 <= q < v.deep_view().len() ==> wf_frame(
                pv,
                #[trigger] v.deep_view()[q],
            ),
        decreases n - k,
    {
        let ghost v_pre = v.deep_view();
        let x = match parse_frame(data, pool) {
            Ok(x) => x,
            Err(e) => {
                return Err(e);
            },
        };
        proof {
            lemma_compose_run_assoc(
                v_pre,
                seq![x.deep_view()],
                sp_frames(s, data.at(), pv, n as int - k as int - 1),
            );
        }
        v.push(x);
        k = k + 1;
        proof {
            assert(v.deep_view() =~= v_pre + seq![x.deep_view()]);
        }
    }
    proof {
        lemma_compose_run_done(v.deep_view(), data.at());
    }
    Ok(v)
}

// ---------------------------------------------------------------------------
// Fixed-layout records and reference lists
// ---------------------------------------------------------------------------
/// Decode one exception table entry of a Code attribute.
pub open spec fn sp_code_exception(s: Seq<u8>, i: int) -> PRes<CodeException> {
    match sp_u16(s, i) {
        PRes::PFail(k) => PRes::PFail(k),
        PRes::POk(a, j) => match sp_u16(s, j) {
            PRes::PFail(k) => PRes::PFail(k),
            PRes::POk(b, j2) => match sp_u16(s, j2) {
                PRes::PFail(k) => PRes::PFail(k),
                PRes::POk(c, j3) => match sp_u16(s, j3) {
                    PRes::PFail(k) => PRes::PFail(k),
                    PRes::POk(d, j4) => PRes::POk(
                        CodeException { start_pc: a, end_pc: b, handler_pc: c, catch_type: d },
                        j4,
                    ),
                },
            },
        },
    }
}

/// Decode a run of `n` exception table entries.
pub open spec fn sp_code_exceptions(s: Seq<u8>, i: int, n: int) -> PRes<Seq<CodeException>>
    decreases n,
{
    if n <= 0 {
        PRes::POk(Seq::empty(), i)
    } else {
        match sp_code_exception(s, i) {
            PRes::PFail(k) => PRes::PFail(k),
            PRes::POk(x, end) => compose_run(seq![x], sp_code_exceptions(s, end, n - 1)),
        }
    }
}

/// Decode one line number table entry.
pub open spec fn sp_line_number(s: Seq<u8>, i: int) -> PRes<LineNumber> {
    match sp_u16(s, i) {
        PRes::PFail(k) => PRes::PFail(k),
        PRes::POk(a, j) => match sp_u16(s, j) {
            PRes::PFail(k) => PRes::PFail(k),
            PRes::POk(b, j2) => PRes::POk(LineNumber { start_pc: a, line_number: b }, j2),
        },
    }
}

/// Decode a run of `n` line number table entries.
pub open spec fn sp_line_numbers(s: Seq<u8>, i: int, n: int) -> PRes<Seq<LineNumber>>
    decreases n,
{
    if n <= 0 {
        PRes::POk(Seq::empty(), i)
    } else {
        match sp_line_number(s, i) {
            PRes::PFail(k) => PRes::PFail(k),
            PRes::POk(x, end) => compose_run(seq![x], sp_line_numbers(s, end, n - 1)),
        }
    }
}

/// Decode one local variable table entry: two of its fields reference Utf8
/// entries.
pub open spec fn sp_local_variable(s: Seq<u8>, i: int, pool: Seq<CpEntryV>) -> PRes<
    LocalVariableEntry,
> {
    match sp_u16(s, i) {
        PRes::PFail(k) => PRes::PFail(k),
        PRes::POk(a, j) => match sp_u16(s, j) {
            PRes::PFail(k) => PRes::PFail(k),
            PRes::POk(b, j2) => match sp_cp_ref(s, j2, pool, CpKind::Utf8) {
                PRes::PFail(k) => PRes::PFail(k),
                PRes::POk(nm, j3) => match sp_cp_ref(s, j3, pool, CpKind::Utf8) {
                    PRes::PFail(k) => PRes::PFail(k),
                    PRes::POk(ds, j4) => match sp_u16(s, j4) {
                        PRes::PFail(k) => PRes::PFail(k),
                        PRes::POk(ix, j5) => PRes::POk(
                            LocalVariableEntry {
                                start_pc: a,
                                length: b,
                                name_index: nm,
                                descriptor_or_signature_index: ds,
                                index: ix,
                            },
                            j5,
                        ),
                    },
                },
            },
        },
    }
}

/// Decode a run of `n` local variable table entries.
pub open spec fn sp_local_variables(s: Seq<u8>, i: int, pool: Seq<CpEntryV>, n: int) -> PRes<
    Seq<LocalVariableEntry>,
>
    decreases n,
{
    if n <= 0 {
        PRes::POk(Seq::empty(), i)
    } else {
        match sp_local_variable(s, i, pool) {
            PRes::PFail(k) => PRes::PFail(k),
            PRes::POk(x, end) => compose_run(seq![x], sp_local_variables(s, end, pool, n - 1)),
        }
    }
}

/// Decode one InnerClasses entry: the inner class reference is validated,
/// the outer class and name references allow the sentinel 0.
pub open spec fn sp_inner_class(s: Seq<u8>, i: int, pool: Seq<CpEntryV>) -> PRes<InnerClass> {
    match sp_cp_ref(s, i, pool, CpKind::Class) {
        PRes::PFail(k) => PRes::PFail(k),
        PRes::POk(ic, j) => match sp_cp_ref_opt(s, j, pool, CpKind::Class) {
            PRes::PFail(k) => PRes::PFail(k),
            PRes::POk(oc, j2) => match sp_cp_ref_opt(s, j2, pool, CpKind::Utf8) {
                PRes::PFail(k) => PRes::PFail(k),
                PRes::POk(nm, j3) => match sp_u16(s, j3) {
                    PRes::PFail(k) => PRes::PFail(k),
                    PRes::POk(fl, j4) => PRes::POk(
                        InnerClass {
                            inner_class_info_index: ic,
                            outer_class_info_index: oc,
                            inner_class_name_index: nm,
                            inner_class_access_flags: fl,
                        },
                        j4,
                    ),
                },
            },
        },
    }
}

/// Decode a run of `n` InnerClasses entries.
pub open spec fn sp_inner_classes(s: Seq<u8>, i: int, pool: Seq<CpEntryV>, n: int) -> PRes<
    Seq<InnerClass>,
>
    decreases n,
{
    if n <= 0 {
        PRes::POk(Seq::empty(), i)
    } else {
        match sp_inner_class(s, i, pool) {
            PRes::PFail(k) => PRes::PFail(k),
            PRes::POk(x, end) => compose_run(seq![x], sp_inner_classes(s, end, pool, n - 1)),
        }
    }
}

/// Decode a run of `n` Class references.
pub open spec fn sp_class_refs(s: Seq<u8>, i: int, pool: Seq<CpEntryV>, n: int) -> PRes<Seq<u16>>
    decreases n,
{
    if n <= 0 {
        PRes::POk(Seq::empty(), i)
    } else {
        match sp_cp_ref(s, i, pool, CpKind::Class) {
            PRes::PFail(k) => PRes::PFail(k),
            PRes::POk(x, end) => compose_run(seq![x], sp_class_refs(s, end, pool, n - 1)),
        }
    }
}

/// Decode a run of `n` pool indices checked only for bounds.
pub open spec fn sp_any_refs(s: Seq<u8>, i: int, pool: Seq<CpEntryV>, n: int) -> PRes<Seq<u16>>
    decreases n,
{
    if n <= 0 {
        PRes::POk(Seq::empty(), i)
    } else {
        match sp_cp_ref_any(s, i, pool) {
            PRes::PFail(k) => PRes::PFail(k),
            PRes::POk(x, end) => compose_run(seq![x], sp_any_refs(s, end, pool, n - 1)),
        }
    }
}

/// Decode a run of `n` exception table entries.
pub fn parse_code_exceptions(data: &mut Data, n: u16) -> (r: Result<Vec<CodeException>, ParseErr>)
    requires
        old(data).wf(),
    ensures
        final(data).wf(),
        final(data).sbytes() == old(data).sbytes(),
        old(data).at() <= final(data).at(),
        match r {
            Ok(v) => sp_code_exceptions(old(data).sbytes(), old(data).at(), n as int) == PRes::<
                Seq<CodeException>,
            >::POk(v.deep_view(), final(data).at()),
            Err(e) => sp_code_exceptions(old(data).sbytes(), old(data).at(), n as int) == PRes::<
                Seq<CodeException>,
            >::PFail(e.kind),
        },
{
    let ghost s = old(data).sbytes();
    let ghost i0 = old(data).at();
    let mut v: Vec<CodeException> = Vec::new();
    let mut k: u16 = 0;
    proof {
        assert(v.deep_view() =~= Seq::<CodeException>::empty());
        lemma_compose_run_nil(sp_code_exceptions(s, i0, n as int));
    }
    while k < n
        invariant
            data.wf(),
            s == old(data).sbytes(),
            data.sbytes() == s,
            i0 == old(data).at(),
            i0 <= data.at(),
            data.at() <= s.len(),
            k <= n,
            sp_code_exceptions(s, i0, n as int) == compose_run(
                v.deep_view(),
                sp_code_exceptions(s, data.at(), n as int - k as int),
            ),
        decreases n - k,
    {
        let ghost v_pre = v.deep_view();
        let start_pc = match data.u2() {
            Ok(x) => x,
            Err(e) => {
                return Err(e);
            },
        };
        let end_pc = match data.u2() {
            Ok(x) => x,
            Err(e) => {
                return Err(e);
            },
        };
        let handler_pc = match data.u2() {
            Ok(x) => x,
            Err(e) => {
                return Err(e);
            },
        };
        let catch_type = match data.u2() {
            Ok(x) => x,
            Err(e) => {
                return Err(e);
            },
        };
        let x = CodeException { start_pc, end_pc, handler_pc, catch_type };
        proof {
            lemma_compose_run_assoc(
                v_pre,
                seq![x],
                sp_code_exceptions(s, data.at(), n as int - k as int - 1),
            );
        }
        v.push(x);
        k = k + 1;
        proof {
            assert(v.deep_view() =~= v_pre + seq![x]);
        }
    }
    proof {
        lemma_compose_run_done(v.deep_view(), data.at());
    }
    Ok(v)
}

/// Decode a run of `n` line number table entries.
pub fn parse_line_numbers(data: &mut Data, n: u16) -> (r: Result<Vec<LineNumber>, ParseErr>)
    requires
        old(data).wf(),
    ensures
        final(data).wf(),
        final(data).sbytes() == old(data).sbytes(),
        old(data).at() <= final(data).at(),
        match r {
            Ok(v) => sp_line_numbers(old(data).sbytes(), old(data).at(), n as int) == PRes::<
                Seq<LineNumber>,
            >::POk(v.deep_view(), final(data).at()),
            Err(e) => sp_line_numbers(old(data).sbytes(), old(data).at(), n as int) == PRes::<
                Seq<LineNumber>,
            >::PFail(e.kind),
        },
{
    let ghost s = old(data).sbytes();
    let ghost i0 = old(data).at();
    let mut v: Vec<LineNumber> = Vec::new();
    let mut k: u16 = 0;
    proof {
        assert(v.deep_view() =~= Seq::<LineNumber>::empty());
        lemma_compose_run_nil(sp_line_numbers(s, i0, n as int));
    }
    while k < n
        invariant
            data.wf(),
            s == old(data).sbytes(),
            data.sbytes() == s,
            i0 == old(data).at(),
            i0 <= data.at(),
            data.at() <= s.len(),
            k <= n,
            sp_line_numbers(s, i0, n as int) == compose_run(
                v.deep_view(),
                sp_line_numbers(s, data.at(), n as int - k as int),
            ),
        decreases n - k,
    {
        let ghost v_pre = v.deep_view();
        let start_pc = match data.u2() {
            Ok(x) => x,
            Err(e) => {
                return Err(e);
            },
        };
        let line_number = match data.u2() {
            Ok(x) => x,
            Err(e) => {
                return Err(e);
            },
        };
        let x = LineNumber { start_pc, line_number };
        proof {
            lemma_compose_run_assoc(
                v_pre,
                seq![x],
                sp_line_numbers(s, data.at(), n as int - k as int - 1),
            );
        }
        v.push(x);
        k = k + 1;
        proof {
            assert(v.deep_view() =~= v_pre + seq![x]);
        }
    }
    proof {
        lemma_compose_run_done(v.deep_view(), data.at());
    }
    Ok(v)
}

/// Decode a run of `n` local variable table entries.
pub fn parse_local_variables(data: &mut Data, pool: &Vec<CpEntry>, n: u16) -> (r: Result<
    Vec<LocalVariableEntry>,
    ParseErr,
>)
    requires
        old(data).wf(),
    ensures
        final(data).wf(),
        final(data).sbytes() == old(data).sbytes(),
        old(data).at() <= final(data).at(),
        match r {
            Ok(v) => sp_local_variables(
                old(data).sbytes(),
                old(data).at(),
                pool.deep_view(),
                n as int,
            ) == PRes::<Seq<LocalVariableEntry>>::POk(v.deep_view(), final(data).at()) && (forall|
                q: int,
            |
                0 <= q < v.deep_view().len() ==> wf_local_variable(
                    pool.deep_view(),
                    #[trigger] v.deep_view()[q],
                )),
            Err(e) => sp_local_variables(
                old(data).sbytes(),
                old(data).at(),
                pool.deep_view(),
                n as int,
            ) == PRes::<Seq<LocalVariableEntry>>::PFail(e.kind),
        },
{
    let ghost s = old(data).sbytes();
    let ghost i0 = old(data).at();
    let ghost pv = pool.deep_view();
    let mut v: Vec<LocalVariableEntry> = Vec::new();
    let mut k: u16 = 0;
    proof {
        assert(v.deep_view() =~= Seq::<LocalVariableEntry>::empty());
        lemma_compose_run_nil(sp_local_variables(s, i0, pv, n as int));
    }
    while k < n
        invariant
            data.wf(),
            s == old(data).sbytes(),
            data.sbytes() == s,
            i0 == old(data).at(),
            i0 <= data.at(),
            data.at() <= s.len(),
            k <= n,
            pv == pool.deep_view(),
            sp_local_variables(s, i0, pv, n as int) == compose_run(
                v.deep_view(),
                sp_local_variables(s, data.at(), pv, n as int - k as int),
            ),
            forall|q: int| 0 <= q < v.deep_view().len() ==> wf_local_variable(
                pv,
                #[trigger] v.deep_view()[q],
            ),
        decreases n - k,
    {
        let ghost v_pre = v.deep_view();
        let start_pc = match data.u2() {
            Ok(x) => x,
            Err(e) => {
                return Err(e);
            },
        };
        let length = match data.u2() {
            Ok(x) => x,
            Err(e) => {
                return Err(e);
            },
        };
        let name_index = match data.cp(pool, CpKind::Utf8) {
            Ok(x) => x,
            Err(e) => {
                return Err(e);
            },
        };
        let descriptor_or_signature_index = match data.cp(pool, CpKind::Utf8) {
            Ok(x) => x,
            Err(e) => {
                return Err(e);
            },
        };
        let index = match data.u2() {
            Ok(x) => x,
            Err(e) => {
                return Err(e);
            },
        };
        let x = LocalVariableEntry {
            start_pc,
            length,
            name_index,
            descriptor_or_signature_index,
            index,
        };
        proof {
            lemma_compose_run_assoc(
                v_pre,
                seq![x],
                sp_local_variables(s, data.at(), pv, n as int - k as int - 1),
            );
        }
        v.push(x);
        k = k + 1;
        proof {
            assert(v.deep_view() =~= v_pre + seq![x]);
        }
    }
    proof {
        lemma_compose_run_done(v.deep_view(), data.at());
    }
    Ok(v)
}

/// Decode a run of `n` InnerClasses entries.
pub fn parse_inner_classes(data: &mut Data, pool: &Vec<CpEntry>, n: u16) -> (r: Result<
    Vec<InnerClass>,
    ParseErr,
>)
    requires
        old(data).wf(),
    ensures
        final(data).wf(),
        final(data).sbytes() == old(data).sbytes(),
        old(data).at() <= final(data).at(),
        match r {
            Ok(v) => sp_inner_classes(
                old(data).sbytes(),
                old(data).at(),
                pool.deep_view(),
                n as int,
            ) == PRes::<Seq<InnerClass>>::POk(v.deep_view(), final(data).at()) && (forall|q: int|
                0 <= q < v.deep_view().len() ==> wf_inner_class(
                    pool.deep_view(),
                    #[trigger] v.deep_view()[q],
                )),
            Err(e) => sp_inner_classes(
                old(data).sbytes(),
                old(data).at(),
                pool.deep_view(),
                n as int,
            ) == PRes::<Seq<InnerClass>>::PFail(e.kind),
        },
{
    let ghost s = old(data).sbytes();
    let ghost i0 = old(data).at();
    let ghost pv = pool.deep_view();
    let mut v: Vec<InnerClass> = Vec::new();
    let mut k: u16 = 0;
    proof {
        assert(v.deep_view() =~= Seq::<InnerClass>::empty());
        lemma_compose_run_nil(sp_inner_classes(s, i0, pv, n as int));
    }
    while k < n
        invariant
            data.wf(),
            s == old(data).sbytes(),
            data.sbytes() == s,
            i0 == old(data).at(),
            i0 <= data.at(),
            data.at() <= s.len(),
            k <= n,
            pv == pool.deep_view(),
            sp_inner_classes(s, i0, pv, n as int) == compose_run(
                v.deep_view(),
                sp_inner_classes(s, data.at(), pv, n as int - k as int),
            ),
            forall|q: int| 0 <= q < v.deep_view().len() ==> wf_inner_class(
                pv,
                #[trigger] v.deep_view()[q],
            ),
        decreases n - k,
    {
        let ghost v_pre = v.deep_view();
        let inner_class_info_index = match data.cp(pool, CpKind::Class) {
            Ok(x) => x,
            Err(e) => {
                return Err(e);
            },
        };
        let outer_class_info_index = match data.cp_opt(pool, CpKind::Class) {
            Ok(x) => x,
            Err(e) => {
                return Err(e);
            },
        };
        let inner_class_name_index = match data.cp_opt(pool, CpKind::Utf8) {
            Ok(x) => x,
            Err(e) => {
                return Err(e);
            },
        };
        let inner_class_access_flags = match data.u2() {
            Ok(x) => x,
            Err(e) => {
                return Err(e);
            },
        };
        let x = InnerClass {
            inner_class_info_index,
            outer_class_info_index,
            inner_class_name_index,
            inner_class_access_flags,
        };
        proof {
            lemma_compose_run_assoc(
                v_pre,
                seq![x],
                sp_inner_classes(s, data.at(), pv, n as int - k as int - 1),
            );
        }
        v.push(x);
        k = k + 1;
        proof {
            assert(v.deep_view() =~= v_pre + seq![x]);
        }
    }
    proof {
        lemma_compose_run_done(v.deep_view(), data.at());
    }
    Ok(v)
}

/// Decode a run of `n` Class references.
pub fn parse_class_refs(data: &mut Data, pool: &Vec<CpEntry>, n: u16) -> (r: Result<
    Vec<u16>,
    ParseErr,
>)
    requires
        old(data).wf(),
    ensures
        final(data).wf(),
        final(data).sbytes() == old(data).sbytes(),
        old(data).at() <= final(data).at(),
        match r {
            Ok(v) => sp_class_refs(old(data).sbytes(), old(data).at(), pool.deep_view(), n as int)
                == PRes::<Seq<u16>>::POk(v.deep_view(), final(data).at()) && (forall|q: int|
                0 <= q < v.deep_view().len() ==> valid_ref(
                    pool.deep_view(),
                    #[trigger] v.deep_view()[q],
                    CpKind::Class,
                )),
            Err(e) => sp_class_refs(old(data).sbytes(), old(data).at(), pool.deep_view(), n as int)
                == PRes::<Seq<u16>>::PFail(e.kind),
        },
{
    let ghost s = old(data).sbytes();
    let ghost i0 = old(data).at();
    let ghost pv = pool.deep_view();
    let mut v: Vec<u16> = Vec::new();
    let mut k: u16 = 0;
    proof {
        assert(v.deep_view() =~= Seq::<u16>::empty());
        lemma_compose_run_nil(sp_class_refs(s, i0, pv, n as int));
    }
    while k < n
        invariant
            data.wf(),
            s == old(data).sbytes(),
            data.sbytes() == s,
            i0 == old(data).at(),
            i0 <= data.at(),
            data.at() <= s.len(),
            k <= n,
            pv == pool.deep_view(),
            sp_class_refs(s, i0, pv, n as int) == compose_run(
                v.deep_view(),
                sp_class_refs(s, data.at(), pv, n as int - k as int),
            ),
            forall|q: int| 0 <= q < v.deep_view().len() ==> valid_ref(
                pv,
                #[trigger] v.deep_view()[q],
                CpKind::Class,
            ),
        decreases n - k,
    {
        let ghost v_pre = v.deep_view();
        let x = match data.cp(pool, CpKind::Class) {
            Ok(x) => x,
            Err(e) => {
                return Err(e);
            },
        };
        proof {
            lemma_compose_run_assoc(
                v_pre,
                seq![x],
                sp_class_refs(s, data.at(), pv, n as int - k as int - 1),
            );
        }
        v.push(x);
        k = k + 1;
        proof {
            assert(v.deep_view() =~= v_pre + seq![x]);
        }
    }
    proof {
        lemma_compose_run_done(v.deep_view(), data.at());
    }
    Ok(v)
}

/// Decode a run of `n` pool indices checked only for bounds.
pub fn parse_any_refs(data: &mut Data, pool: &Vec<CpEntry>, n: u16) -> (r: Result<
    Vec<u16>,
    ParseErr,
>)
    requires
        old(data).wf(),
    ensures
        final(data).wf(),
        final(data).sbytes() == old(data).sbytes(),
        old(data).at() <= final(data).at(),
        match r {
            Ok(v) => sp_any_refs(old(data).sbytes(), old(data).at(), pool.deep_view(), n as int)
                == PRes::<Seq<u16>>::POk(v.deep_view(), final(data).at()) && (forall|q: int|
                0 <= q < v.deep_view().len() ==> valid_any_ref(
                    pool.deep_view(),
                    #[trigger] v.deep_view()[q],
                )),
            Err(e) => sp_any_refs(old(data).sbytes(), old(data).at(), pool.deep_view(), n as int)
                == PRes::<Seq<u16>>::PFail(e.kind),
        },
{
    let ghost s = old(data).sbytes();
    let ghost i0 = old(data).at();
    let ghost pv = pool.deep_view();
    let mut v: Vec<u16> = Vec::new();
    let mut k: u16 = 0;
    proof {
        assert(v.deep_view() =~= Seq::<u16>::empty());
        lemma_compose_run_nil(sp_any_refs(s, i0, pv, n as int));
    }
    while k < n
        invariant
            data.wf(),
            s == old(data).sbytes(),
            data.sbytes() == s,
            i0 == old(data).at(),
            i0 <= data.at(),
            data.at() <= s.len(),
            k <= n,
            pv == pool.deep_view(),
            sp_any_refs(s, i0, pv, n as int) == compose_run(
                v.deep_view(),
                sp_any_refs(s, data.at(), pv, n as int - k as int),
            ),
            forall|q: int| 0 <= q < v.deep_view().len() ==> valid_any_ref(
                pv,
                #[trigger] v.deep_view()[q],
            ),
        decreases n - k,
    {
        let ghost v_pre = v.deep_view();
        let x = match data.cp_any(pool) {
            Ok(x) => x,
            Err(e) => {
                return Err(e);
            },
        };
        proof {
            lemma_compose_run_assoc(
                v_pre,
                seq![x],
                sp_any_refs(s, data.at(), pv, n as int - k as int - 1),
            );
        }
        v.push(x);
        k = k + 1;
        proof {
            assert(v.deep_view() =~= v_pre + seq![x]);
        }
    }
    proof {
        lemma_compose_run_done(v.deep_view(), data.at());
    }
    Ok(v)
}

// ---------------------------------------------------------------------------
// Annotation lists, parameter annotations, bootstrap methods
// ---------------------------------------------------------------------------
/// Decode a run of `n` annotations.
pub open spec fn sp_annotations_vec(s: Seq<u8>, i: int, pool: Seq<CpEntryV>, n: int) -> PRes<
    Seq<AnnotationV>,
>
    decreases n,
{
    if n <= 0 {
        PRes::POk(Seq::empty(), i)
    } else {
        match sp_annotation(s, i, pool) {
            PRes::PFail(k) => PRes::PFail(k),
            PRes::POk(a, end) => compose_run(seq![a], sp_annotations_vec(s, end, pool, n - 1)),
        }
    }
}

/// Decode the annotations of one parameter: a count, then that many
/// annotations.
pub open spec fn sp_param_annotation(s: Seq<u8>, i: int, pool: Seq<CpEntryV>) -> PRes<
    crate::model::ParameterAnnotationV,
> {
    match sp_u16(s, i) {
        PRes::PFail(k) => PRes::PFail(k),
        PRes::POk(n, j) => match sp_annotations_vec(s, j, pool, n as int) {
            PRes::PFail(k) => PRes::PFail(k),
            PRes::POk(a, j2) => PRes::POk(
                crate::model::ParameterAnnotationV { annotations: a },
                j2,
            ),
        },
    }
}

/// Decode a run of `n` per-parameter annotation lists.
pub open spec fn sp_param_annotations(s: Seq<u8>, i: int, pool: Seq<CpEntryV>, n: int) -> PRes<
    Seq<crate::model::ParameterAnnotationV>,
>
    decreases n,
{
    if n <= 0 {
        PRes::POk(Seq::empty(), i)
    } else {
        match sp_param_annotation(s, i, pool) {
            PRes::PFail(k) => PRes::PFail(k),
            PRes::POk(p, end) => compose_run(seq![p], sp_param_annotations(s, end, pool, n - 1)),
        }
    }
}

/// Decode one bootstrap method: a MethodHandle reference, then its
/// argument indices.
pub open spec fn sp_bootstrap_method(s: Seq<u8>, i: int, pool: Seq<CpEntryV>) -> PRes<
    crate::model::BootstrapMethodV,
> {
    match sp_cp_ref(s, i, pool, CpKind::MethodHandle) {
        PRes::PFail(k) => PRes::PFail(k),
        PRes::POk(m, j) => match sp_u16(s, j) {
            PRes::PFail(k) => PRes::PFail(k),
            PRes::POk(n, j2) => match sp_any_refs(s, j2, pool, n as int) {
                PRes::PFail(k) => PRes::PFail(k),
                PRes::POk(args, j3) => PRes::POk(
                    crate::model::BootstrapMethodV {
                        bootstrap_method_ref: m,
                        bootstrap_arguments: args,
                    },
                    j3,
                ),
            },
        },
    }
}

/// Decode a run of `n` bootstrap methods.
pub open spec fn sp_bootstrap_methods(s: Seq<u8>, i: int, pool: Seq<CpEntryV>, n: int) -> PRes<
    Seq<crate::model::BootstrapMethodV>,
>
    decreases n,
{
    if n <= 0 {
        PRes::POk(Seq::empty(), i)
    } else {
        match sp_bootstrap_method(s, i, pool) {
            PRes::PFail(k) => PRes::PFail(k),
            PRes::POk(b, end) => compose_run(seq![b], sp_bootstrap_methods(s, end, pool, n - 1)),
        }
    }
}

/// Decode a run of `n` annotations.
pub fn parse_annotations(data: &mut Data, pool: &Vec<CpEntry>, n: u16) -> (r: Result<
    Vec<Annotation>,
    ParseErr,
>)
    requires
        old(data).wf(),
    ensures
        final(data).wf(),
        final(data).sbytes() == old(data).sbytes(),
        old(data).at() <= final(data).at(),
        match r {
            Ok(v) => sp_annotations_vec(
                old(data).sbytes(),
                old(data).at(),
                pool.deep_view(),
                n as int,
            ) == PRes::<Seq<AnnotationV>>::POk(v.deep_view(), final(data).at()) && (forall|q: int|
                0 <= q < v.deep_view().len() ==> wf_annotation(
                    pool.deep_view(),
                    #[trigger] v.deep_view()[q],
                )),
            Err(e) => sp_annotations_vec(
                old(data).sbytes(),
                old(data).at(),
                pool.deep_view(),
                n as int,
            ) == PRes::<Seq<AnnotationV>>::PFail(e.kind),
        },
{
    let ghost s = old(data).sbytes();
    let ghost i0 = old(data).at();
    let ghost pv = pool.deep_view();
    let mut v: Vec<Annotation> = Vec::new();
    let mut k: u16 = 0;
    proof {
        assert(v.deep_view() =~= Seq::<AnnotationV>::empty());
        lemma_compose_run_nil(sp_annotations_vec(s, i0, pv, n as int));
    }
    while k < n
        invariant
            data.wf(),
            s == old(data).sbytes(),
            data.sbytes() == s,
            i0 == old(data).at(),
            i0 <= data.at(),
            data.at() <= s.len(),
            k <= n,
            pv == pool.deep_view(),
            sp_annotations_vec(s, i0, pv, n as int) == compose_run(
                v.deep_view(),
                sp_annotations_vec(s, data.at(), pv, n as int - k as int),
            ),
            forall|q: int| 0 <= q < v.deep_view().len() ==> wf_annotation(
                pv,
                #[trigger] v.deep_view()[q],
            ),
        decreases n - k,
    {
        let ghost v_pre = v.deep_view();
        let x = match Annotation::parse(data, pool) {
            Ok(x) => x,
            Err(e) => {
                return Err(e);
            },
        };
        proof {
            lemma_compose_run_assoc(
                v_pre,
                seq![x.deep_view()],
                sp_annotations_vec(s, data.at(), pv, n as int - k as int - 1),
            );
        }
        v.push(x);
        k = k + 1;
        proof {
            assert(v.deep_view() =~= v_pre + seq![x.deep_view()]);
        }
    }
    proof {
        lemma_compose_run_done(v.deep_view(), data.at());
    }
    Ok(v)
}

/// Decode a run of `n` per-parameter annotation lists; the outer count is a
/// single byte.
pub fn parse_param_annotations(data: &mut Data, pool: &Vec<CpEntry>, n: u8) -> (r: Result<
    Vec<crate::model::ParameterAnnotation>,
    ParseErr,
>)
    requires
        old(data).wf(),
    ensures
        final(data).wf(),
        final(data).sbytes() == old(data).sbytes(),
        old(data).at() <= final(data).at(),
        match r {
            Ok(v) => sp_param_annotations(
                old(data).sbytes(),
                old(data).at(),
                pool.deep_view(),
                n as int,
            ) == PRes::<Seq<crate::model::ParameterAnnotationV>>::POk(
                v.deep_view(),
                final(data).at(),
            ) && (forall|q: int|
                0 <= q < v.deep_view().len() ==> crate::model::wf_parameter_annotation(
                    pool.deep_view(),
                    #[trigger] v.deep_view()[q],
                )),
            Err(e) => sp_param_annotations(
                old(data).sbytes(),
                old(data).at(),
                pool.deep_view(),
                n as int,
            ) == PRes::<Seq<crate::model::ParameterAnnotationV>>::PFail(e.kind),
        },
{
    let ghost s = old(data).sbytes();
    let ghost i0 = old(data).at();
    let ghost pv = pool.deep_view();
    let mut v: Vec<crate::model::ParameterAnnotation> = Vec::new();
    let mut k: u8 = 0;
    proof {
        assert(v.deep_view() =~= Seq::<crate::model::ParameterAnnotationV>::empty());
        lemma_compose_run_nil(sp_param_annotations(s, i0, pv, n as int));
    }
    while k < n
        invariant
            data.wf(),
            s == old(data).sbytes(),
            data.sbytes() == s,
            i0 == old(data).at(),
            i0 <= data.at(),
            data.at() <= s.len(),
            k <= n,
            pv == pool.deep_view(),
            sp_param_annotations(s, i0, pv, n as int) == compose_run(
                v.deep_view(),
                sp_param_annotations(s, data.at(), pv, n as int - k as int),
            ),
            forall|q: int| 0 <= q < v.deep_view().len() ==> crate::model::wf_parameter_annotation(
                pv,
                #[trigger] v.deep_view()[q],
            ),
        decreases n - k,
    {
        let ghost v_pre = v.deep_view();
        let cnt = match data.u2() {
            Ok(x) => x,
            Err(e) => {
                return Err(e);
            },
        };
        let anns = match parse_annotations(data, pool, cnt) {
            Ok(x) => x,
            Err(e) => {
                return Err(e);
            },
        };
        let x = crate::model::ParameterAnnotation { annotations: anns };
        proof {
            lemma_compose_run_assoc(
                v_pre,
                seq![x.deep_view()],
                sp_param_annotations(s, data.at(), pv, n as int - k as int - 1),
            );
        }
        v.push(x);
        k = k + 1;
        proof {
            assert(v.deep_view() =~= v_pre + seq![x.deep_view()]);
        }
    }
    proof {
        lemma_compose_run_done(v.deep_view(), data.at());
    }
    Ok(v)
}

/// Decode a run of `n` bootstrap methods.
pub fn parse_bootstrap_methods(data: &mut Data, pool: &Vec<CpEntry>, n: u16) -> (r: Result<
    Vec<crate::model::BootstrapMethod>,
    ParseErr,
>)
    requires
        old(data).wf(),
    ensures
        final(data).wf(),
        final(data).sbytes() == old(data).sbytes(),
        old(data).at() <= final(data).at(),
        match r {
            Ok(v) => sp_bootstrap_methods(
                old(data).sbytes(),
                old(data).at(),
                pool.deep_view(),
                n as int,
            ) == PRes::<Seq<crate::model::BootstrapMethodV>>::POk(
                v.deep_view(),
                final(data).at(),
            ) && (forall|q: int|
                0 <= q < v.deep_view().len() ==> crate::model::wf_bootstrap_method(
                    pool.deep_view(),
                    #[trigger] v.deep_view()[q],
                )),
            Err(e) => sp_bootstrap_methods(
                old(data).sbytes(),
                old(data).at(),
                pool.deep_view(),
                n as int,
            ) == PRes::<Seq<crate::model::BootstrapMethodV>>::PFail(e.kind),
        },
{
    let ghost s = old(data).sbytes();
    let ghost i0 = old(data).at();
    let ghost pv = pool.deep_view();
    let mut v: Vec<crate::model::BootstrapMethod> = Vec::new();
    let mut k: u16 = 0;
    proof {
        assert(v.deep_view() =~= Seq::<crate::model::BootstrapMethodV>::empty());
        lemma_compose_run_nil(sp_bootstrap_methods(s, i0, pv, n as int));
    }
    while k < n
        invariant
            data.wf(),
            s == old(data).sbytes(),
            data.sbytes() == s,
            i0 == old(data).at(),
            i0 <= data.at(),
            data.at() <= s.len(),
            k <= n,
            pv == pool.deep_view(),
            sp_bootstrap_methods(s, i0, pv, n as int) == compose_run(
                v.deep_view(),
                sp_bootstrap_methods(s, data.at(), pv, n as int - k as int),
            ),
            forall|q: int| 0 <= q < v.deep_view().len() ==> crate::model::wf_bootstrap_method(
                pv,
                #[trigger] v.deep_view()[q],
            ),
        decreases n - k,
    {
        let ghost v_pre = v.deep_view();
        let bootstrap_method_ref = match data.cp(pool, CpKind::MethodHandle) {
            Ok(x) => x,
            Err(e) => {
                return Err(e);
            },
        };
        let cnt = match data.u2() {
            Ok(x) => x,
            Err(e) => {
                return Err(e);
            },
        };
        let args = match parse_any_refs(data, pool, cnt) {
            Ok(x) => x,
            Err(e) => {
                return Err(e);
            },
        };
        let x = crate::model::BootstrapMethod {
            bootstrap_method_ref,
            bootstrap_arguments: args,
        };
        proof {
            lemma_compose_run_assoc(
                v_pre,
                seq![x.deep_view()],
                sp_bootstrap_methods(s, data.at(), pv, n as int - k as int - 1),
            );
        }
        v.push(x);
        k = k + 1;
        proof {
            assert(v.deep_view() =~= v_pre + seq![x.deep_view()]);
        }
    }
    proof {
        lemma_compose_run_done(v.deep_view(), data.at());
    }
    Ok(v)
}

} // verus!
