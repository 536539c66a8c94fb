use vstd::prelude::*;

use crate::cursor::{
    compose_run, lemma_compose_run_assoc, lemma_compose_run_done, lemma_compose_run_nil, sp_take,
    sp_u16, sp_u32, Data, PRes,
};
use crate::err::{ErrKind, ParseErr};
use crate::model::{
    wf_raw_attribute, wf_raw_member, RawAttribute, RawAttributeV, RawClass, RawClassV, RawMember,
    RawMemberV,
};
use crate::pool::{
    pool_check, sp_constant_pool, sp_cp_ref, valid_ref, CpEntry, CpEntryV, CpKind,
};

verus! {

// ---------------------------------------------------------------------------
// Attribute framing (name index, length, opaque payload)
// ---------------------------------------------------------------------------
/// Decode one attribute frame: a Utf8 name reference, a 32-bit payload
/// length, then exactly that many payload bytes, kept opaque.
pub open spec fn sp_raw_attr(s: Seq<u8>, i: int, pool: Seq<CpEntryV>) -> PRes<RawAttributeV> {
    match sp_cp_ref(s, i, pool, CpKind::Utf8) {
        PRes::PFail(k) => PRes::PFail(k),
        PRes::POk(ni, j) => match sp_u32(s, j) {
            PRes::PFail(k) => PRes::PFail(k),
            PRes::POk(len, j2) => match sp_take(s, j2, len as int) {
                PRes::PFail(k) => PRes::PFail(k),
                PRes::POk(pl, j3) => PRes::POk(
                    RawAttributeV { name_index: ni, length: len, payload: pl },
                    j3,
                ),
            },
        },
    }
}

/// Decode a run of `n` attribute frames.
pub open spec fn sp_raw_attrs(s: Seq<u8>, i: int, pool: Seq<CpEntryV>, n: int) -> PRes<
    Seq<RawAttributeV>,
>
    decreases n,
{
    if n <= 0 {
        PRes::POk(Seq::empty(), i)
    } else {
        match sp_raw_attr(s, i, pool) {
            PRes::PFail(k) => PRes::PFail(k),
            PRes::POk(a, end) => compose_run(seq![a], sp_raw_attrs(s, end, pool, n - 1)),
        }
    }
}

/// Every decoded attribute frame fits inside the region it was read from:
/// its payload, plus the six framing bytes, lies between the start position
/// and the end of the input.
pub proof fn lemma_sp_raw_attrs_bounds(s: Seq<u8>, i: int, pool: Seq<CpEntryV>, n: int)
    ensures
        match sp_raw_attrs(s, i, pool, n) {
            PRes::POk(v, end) => i <= end <= s.len() || n <= 0,
            PRes::PFail(_) => true,
        },
        match sp_raw_attrs(s, i, pool, n) {
            PRes::POk(v, end) => forall|k: int|
                0 <= k < v.len() ==> (#[trigger] v[k].payload).len() + 6 + i <= s.len(),
            PRes::PFail(_) => true,
        },
    decreases n,
{
    if n > 0 {
        match sp_raw_attr(s, i, pool) {
            PRes::POk(r0, e1) => {
                assert(e1 == i + 6 + r0.payload.len());
                assert(e1 <= s.len());
                lemma_sp_raw_attrs_bounds(s, e1, pool, n - 1);
                match sp_raw_attrs(s, e1, pool, n - 1) {
                    PRes::POk(rest, end) => {
                        assert forall|k: int|
                            0 <= k < (seq![r0] + rest).len() implies (#[trigger] (seq![r0]
                            + rest)[k].payload).len() + 6 + i <= s.len() by {
                            if k == 0 {
                                assert((seq![r0] + rest)[0] == r0);
                            } else {
                                assert((seq![r0] + rest)[k] == rest[k - 1]);
                                assert(rest[k - 1].payload.len() + 6 + e1 <= s.len());
                            }
                        }
                    },
                    PRes::PFail(_) => {},
                }
            },
            PRes::PFail(_) => {},
        }
    }
}

/// The byte image of one attribute frame: name index, length, payload.
pub open spec fn ser_raw_attr(a: RawAttributeV) -> Seq<u8> {
    crate::pool::ser_u16(a.name_index) + crate::pool::ser_u32(a.length) + a.payload
}

/// The byte image of a run of attribute frames.
pub open spec fn ser_raw_attrs(v: Seq<RawAttributeV>) -> Seq<u8>
    decreases v.len(),
{
    if v.len() == 0 {
        Seq::empty()
    } else {
        ser_raw_attr(v[0]) + ser_raw_attrs(v.drop_first())
    }
}

/// Decoding one attribute frame and writing it back reproduces exactly the
/// bytes that were consumed.
pub proof fn lemma_raw_attr_round_trip(s: Seq<u8>, i: int, pool: Seq<CpEntryV>)
    ensures
        sp_raw_attr(s, i, pool) matches PRes::POk(a, end) ==> ser_raw_attr(a) =~= s.subrange(
            i,
            end,
        ),
{
    if sp_raw_attr(s, i, pool) is POk {
        crate::pool::lemma_ser_be16(s[i], s[i + 1]);
        crate::pool::lemma_ser_be32(s[i + 2], s[i + 3], s[i + 4], s[i + 5]);
    }
}

/// Decoding a run of attribute frames and writing each one back, in order,
/// reproduces exactly the bytes that were consumed.
pub proof fn lemma_raw_attrs_round_trip(s: Seq<u8>, i: int, pool: Seq<CpEntryV>, n: int)
    ensures
        sp_raw_attrs(s, i, pool, n) matches PRes::POk(v, end) ==> (0 <= i <= s.len() ==> (i <= end
            <= s.len() && ser_raw_attrs(v) =~= s.subrange(i, end))),
    decreases n,
{
    reveal_with_fuel(ser_raw_attrs, 2);
    if n > 0 {
        match sp_raw_attr(s, i, pool) {
            PRes::POk(a, j) => {
                lemma_raw_attr_round_trip(s, i, pool);
                lemma_raw_attrs_round_trip(s, j, pool, n - 1);
                match sp_raw_attrs(s, j, pool, n - 1) {
                    PRes::POk(rest, end) => {
                        if 0 <= i <= s.len() {
                            let v = seq![a] + rest;
                            assert(v[0] == a);
                            assert(v.drop_first() =~= rest);
                            assert(s.subrange(i, end) =~= s.subrange(i, j) + s.subrange(j, end));
                        }
                    },
                    PRes::PFail(_) => {},
                }
            },
            PRes::PFail(_) => {},
        }
    }
}

/// Decode one attribute frame.
pub fn parse_raw_attr(data: &mut Data, pool: &Vec<CpEntry>) -> (r: Result<RawAttribute, ParseErr>)
    requires
        old(data).wf(),
    ensures
        final(data).wf(),
        final(data).sbytes() == old(data).sbytes(),
        old(data).at() <= final(data).at(),
        match r {
            Ok(a) => sp_raw_attr(old(data).sbytes(), old(data).at(), pool.deep_view()) == PRes::<
                RawAttributeV,
            >::POk(a.deep_view(), final(data).at()) && wf_raw_attribute(
                pool.deep_view(),
                a.deep_view(),
            ),
            Err(e) => sp_raw_attr(old(data).sbytes(), old(data).at(), pool.deep_view()) == PRes::<
                RawAttributeV,
            >::PFail(e.kind),
        },
{
    let name_index = data.cp(pool, CpKind::Utf8)?;
    let length = data.u4()?;
    let payload = data.bytes(length as usize)?;
    Ok(RawAttribute { name_index, length, payload })
}

/// Decode a run of `n` attribute frames.
pub fn parse_raw_attrs(data: &mut Data, pool: &Vec<CpEntry>, n: u16) -> (r: Result<
    Vec<RawAttribute>,
    ParseErr,
>)
    requires
        old(data).wf(),
    ensures
        final(data).wf(),
        final(data).sbytes() == old(data).sbytes(),
        old(data).at() <= final(data).at(),
        match r {
            Ok(v) => sp_raw_attrs(old(data).sbytes(), old(data).at(), pool.deep_view(), n as int)
                == PRes::<Seq<RawAttributeV>>::POk(v.deep_view(), final(data).at()) && (forall|
                q: int,
            |
                0 <= q < v.deep_view().len() ==> wf_raw_attribute(
                    pool.deep_view(),
                    #[trigger] v.deep_view()[q],
                )),
            Err(e) => sp_raw_attrs(old(data).sbytes(), old(data).at(), pool.deep_view(), n as int)
                == PRes::<Seq<RawAttributeV>>::PFail(e.kind),
        },
{
    let ghost s = old(data).sbytes();
    let ghost i0 = old(data).at();
    let ghost pv = pool.deep_view();
    let mut v: Vec<RawAttribute> = Vec::new();
    let mut k: u16 = 0;
    proof {
        assert(v.deep_view() =~= Seq::<RawAttributeV>::empty());
        lemma_compose_run_nil(sp_raw_attrs(s, i0, pv, n as int));
    }
    while k < n
        invariant
            data.wf(),
            s == old(data).sbytes(),
            data.sbytes() == s,
            i0 == old(data).at(),
            i0 <= data.at(),
            data.at() <= s.len(),
            k <= n,
            pv == pool.deep_view(),
            sp_raw_attrs(s, i0, pv, n as int) == compose_run(
                v.deep_view(),
                sp_raw_attrs(s, data.at(), pv, n as int - k as int),
            ),
            forall|q: int| 0 <= q < v.deep_view().len() ==> wf_raw_attribute(
                pv,
                #[trigger] v.deep_view()[q],
            ),
        decreases n - k,
    {
        let ghost v_pre = v.deep_view();
        let x = match parse_raw_attr(data, pool) {
            Ok(x) => x,
            Err(e) => {
                return Err(e);
            },
        };
        proof {
            lemma_compose_run_assoc(
                v_pre,
                seq![x.deep_view()],
                sp_raw_attrs(s, data.at(), pv, n as int - k as int - 1),
            );
        }
        v.push(x);
        k = k + 1;
        proof {
            assert(v.deep_view() =~= v_pre + seq![x.deep_view()]);
        }
    }
    proof {
        lemma_compose_run_done(v.deep_view(), data.at());
    }
    Ok(v)
}

// ---------------------------------------------------------------------------
// Fields and methods (one shared layout)
// ---------------------------------------------------------------------------
/// Decode one field or method: access flags, a Utf8 name reference, a Utf8
/// descriptor reference, then its attribute frames.
pub open spec fn sp_raw_member(s: Seq<u8>, i: int, pool: Seq<CpEntryV>) -> PRes<RawMemberV> {
    match sp_u16(s, i) {
        PRes::PFail(k) => PRes::PFail(k),
        PRes::POk(fl, j) => match sp_cp_ref(s, j, pool, CpKind::Utf8) {
            PRes::PFail(k) => PRes::PFail(k),
            PRes::POk(nm, j2) => match sp_cp_ref(s, j2, pool, CpKind::Utf8) {
                PRes::PFail(k) => PRes::PFail(k),
                PRes::POk(ds, j3) => match sp_u16(s, j3) {
                    PRes::PFail(k) => PRes::PFail(k),
                    PRes::POk(n, j4) => match sp_raw_attrs(s, j4, pool, n as int) {
                        PRes::PFail(k) => PRes::PFail(k),
                        PRes::POk(ats, j5) => PRes::POk(
                            RawMemberV {
                                access_flags: fl,
                                name_index: nm,
                                descriptor_index: ds,
                                attributes: ats,
                            },
                            j5,
                        ),
                    },
                },
            },
        },
    }
}

/// Decode a run of `n` fields or methods.
pub open spec fn sp_raw_members(s: Seq<u8>, i: int, pool: Seq<CpEntryV>, n: int) -> PRes<
    Seq<RawMemberV>,
>
    decreases n,
{
    if n <= 0 {
        PRes::POk(Seq::empty(), i)
    } else {
        match sp_raw_member(s, i, pool) {
            PRes::PFail(k) => PRes::PFail(k),
            PRes::POk(m, end) => compose_run(seq![m], sp_raw_members(s, end, pool, n - 1)),
        }
    }
}

/// Decode one field or method.
pub fn parse_raw_member(data: &mut Data, pool: &Vec<CpEntry>) -> (r: Result<RawMember, ParseErr>)
    requires
        old(data).wf(),
    ensures
        final(data).wf(),
        final(data).sbytes() == old(data).sbytes(),
        old(data).at() <= final(data).at(),
        match r {
            Ok(m) => sp_raw_member(old(data).sbytes(), old(data).at(), pool.deep_view()) == PRes::<
                RawMemberV,
            >::POk(m.deep_view(), final(data).at()) && wf_raw_member(
                pool.deep_view(),
                m.deep_view(),
            ),
            Err(e) => sp_raw_member(old(data).sbytes(), old(data).at(), pool.deep_view()) == PRes::<
                RawMemberV,
            >::PFail(e.kind),
        },
{
    let access_flags = data.u2()?;
    let name_index = data.cp(pool, CpKind::Utf8)?;
    let descriptor_index = data.cp(pool, CpKind::Utf8)?;
    let n = data.u2()?;
    let attributes = parse_raw_attrs(data, pool, n)?;
    Ok(RawMember { access_flags, name_index, descriptor_index, attributes })
}

/// Decode a run of `n` fields or methods.
pub fn parse_raw_members(data: &mut Data, pool: &Vec<CpEntry>, n: u16) -> (r: Result<
    Vec<RawMember>,
    ParseErr,
>)
    requires
        old(data).wf(),
    ensures
        final(data).wf(),
        final(data).sbytes() == old(data).sbytes(),
        old(data).at() <= final(data).at(),
        match r {
            Ok(v) => sp_raw_members(old(data).sbytes(), old(data).at(), pool.deep_view(), n as int)
                == PRes::<Seq<RawMemberV>>::POk(v.deep_view(), final(data).at()) && (forall|q: int|
                0 <= q < v.deep_view().len() ==> wf_raw_member(
                    pool.deep_view(),
                    #[trigger] v.deep_view()[q],
                )),
            Err(e) => sp_raw_members(old(data).sbytes(), old(data).at(), pool.deep_view(), n as int)
                == PRes::<Seq<RawMemberV>>::PFail(e.kind),
        },
{
    let ghost s = old(data).sbytes();
    let ghost i0 = old(data).at();
    let ghost pv = pool.deep_view();
    let mut v: Vec<RawMember> = Vec::new();
    let mut k: u16 = 0;
    proof {
        assert(v.deep_view() =~= Seq::<RawMemberV>::empty());
        lemma_compose_run_nil(sp_raw_members(s, i0, pv, n as int));
    }
    while k < n
        invariant
            data.wf(),
            s == old(data).sbytes(),
            data.sbytes() == s,
            i0 == old(data).at(),
            i0 <= data.at(),
            data.at() <= s.len(),
            k <= n,
            pv == pool.deep_view(),
            sp_raw_members(s, i0, pv, n as int) == compose_run(
                v.deep_view(),
                sp_raw_members(s, data.at(), pv, n as int - k as int),
            ),
            forall|q: int| 0 <= q < v.deep_view().len() ==> wf_raw_member(
                pv,
                #[trigger] v.deep_view()[q],
            ),
        decreases n - k,
    {
        let ghost v_pre = v.deep_view();
        let x = match parse_raw_member(data, pool) {
            Ok(x) => x,
            Err(e) => {
                return Err(e);
            },
        };
        proof {
            lemma_compose_run_assoc(
                v_pre,
                seq![x.deep_view()],
                sp_raw_members(s, data.at(), pv, n as int - k as int - 1),
            );
        }
        v.push(x);
        k = k + 1;
        proof {
            assert(v.deep_view() =~= v_pre + seq![x.deep_view()]);
        }
    }
    proof {
        lemma_compose_run_done(v.deep_view(), data.at());
    }
    Ok(v)
}

// ---------------------------------------------------------------------------
// The class envelope
// ---------------------------------------------------------------------------
/// Decode the class envelope: magic, versions, the constant pool with its
/// completion check, access flags, this and super class references, the
/// interface list, fields, methods, and class attributes, all attributes
/// still opaque.
pub open spec fn sp_raw_class(s: Seq<u8>, i: int) -> PRes<RawClassV> {
    match sp_u32(s, i) {
        PRes::PFail(k) => PRes::PFail(k),
        PRes::POk(magic, j) => if magic != 0xCAFEBABEu32 {
            PRes::PFail(ErrKind::BadMagic)
        } else {
            match sp_u16(s, j) {
                PRes::PFail(k) => PRes::PFail(k),
                PRes::POk(minor, j2) => match sp_u16(s, j2) {
                    PRes::PFail(k) => PRes::PFail(k),
                    PRes::POk(major, j3) => match sp_constant_pool(s, j3) {
                        PRes::PFail(k) => PRes::PFail(k),
                        PRes::POk(pool, j4) => match pool_check(pool, 0) {
                            Some(k) => PRes::PFail(k),
                            None => match sp_u16(s, j4) {
                                PRes::PFail(k) => PRes::PFail(k),
                                PRes::POk(fl, j5) => match sp_cp_ref(s, j5, pool, CpKind::Class) {
                                    PRes::PFail(k) => PRes::PFail(k),
                                    PRes::POk(tc, j6) => match sp_cp_ref(
                                        s,
                                        j6,
                                        pool,
                                        CpKind::Class,
                                    ) {
                                        PRes::PFail(k) => PRes::PFail(k),
                                        PRes::POk(sc, j7) => sp_raw_class_tail(
                                            s,
                                            j7,
                                            pool,
                                            magic,
                                            minor,
                                            major,
                                            fl,
                                            tc,
                                            sc,
                                        ),
                                    },
                                },
                            },
                        },
                    },
                },
            }
        },
    }
}

/// The tail of the envelope: interfaces, fields, methods, and attributes.
pub open spec fn sp_raw_class_tail(
    s: Seq<u8>,
    i: int,
    pool: Seq<CpEntryV>,
    magic: u32,
    minor: u16,
    major: u16,
    access_flags: u16,
    this_class: u16,
    super_class: u16,
) -> PRes<RawClassV> {
    match sp_u16(s, i) {
        PRes::PFail(k) => PRes::PFail(k),
        PRes::POk(ic, j) => match crate::attrs::sp_class_refs(s, j, pool, ic as int) {
            PRes::PFail(k) => PRes::PFail(k),
            PRes::POk(ifs, j2) => match sp_u16(s, j2) {
                PRes::PFail(k) => PRes::PFail(k),
                PRes::POk(fc, j3) => match sp_raw_members(s, j3, pool, fc as int) {
                    PRes::PFail(k) => PRes::PFail(k),
                    PRes::POk(fs, j4) => match sp_u16(s, j4) {
                        PRes::PFail(k) => PRes::PFail(k),
                        PRes::POk(mc, j5) => match sp_raw_members(s, j5, pool, mc as int) {
                            PRes::PFail(k) => PRes::PFail(k),
                            PRes::POk(ms, j6) => match sp_u16(s, j6) {
                                PRes::PFail(k) => PRes::PFail(k),
                                PRes::POk(ac, j7) => match sp_raw_attrs(s, j7, pool, ac as int) {
                                    PRes::PFail(k) => PRes::PFail(k),
                                    PRes::POk(ats, j8) => PRes::POk(
                                        RawClassV {
                                            magic,
                                            minor_version: minor,
                                            major_version: major,
                                            constant_pool: pool,
                                            access_flags,
                                            this_class,
                                            super_class,
                                            interfaces: ifs,
                                            fields: fs,
                                            methods: ms,
                                            attributes: ats,
                                        },
                                        j8,
                                    ),
                                },
                            },
                        },
                    },
                },
            },
        },
    }
}

/// The raw class is well-formed: its pool is well-formed and every pool
/// reference in the envelope is valid.
pub open spec fn wf_raw_class(c: RawClassV) -> bool {
    let pool = c.constant_pool;
    c.magic == 0xCAFEBABEu32 && crate::pool::wf_pool(pool) && valid_ref(
        pool,
        c.this_class,
        CpKind::Class,
    ) && valid_ref(pool, c.super_class, CpKind::Class) && (forall|i: int|
        0 <= i < c.interfaces.len() ==> valid_ref(pool, #[trigger] c.interfaces[i], CpKind::Class))
        && (forall|i: int| 0 <= i < c.fields.len() ==> wf_raw_member(pool, #[trigger] c.fields[i]))
        && (forall|i: int|
        0 <= i < c.methods.len() ==> wf_raw_member(pool, #[trigger] c.methods[i])) && (forall|
        i: int,
    |
        0 <= i < c.attributes.len() ==> wf_raw_attribute(pool, #[trigger] c.attributes[i]))
}

/// Decode the class envelope.
pub fn parse_raw_class(data: &mut Data) -> (r: Result<RawClass, ParseErr>)
    requires
        old(data).wf(),
    ensures
        final(data).wf(),
        final(data).sbytes() == old(data).sbytes(),
        old(data).at() <= final(data).at(),
        match r {
            Ok(c) => sp_raw_class(old(data).sbytes(), old(data).at()) == PRes::<RawClassV>::POk(
                c.deep_view(),
                final(data).at(),
            ) && wf_raw_class(c.deep_view()),
            Err(e) => sp_raw_class(old(data).sbytes(), old(data).at()) == PRes::<
                RawClassV,
            >::PFail(e.kind),
        },
{
    let magic = data.u4()?;
    if magic != 0xCAFEBABE {
        return Err(ParseErr { kind: ErrKind::BadMagic });
    }
    let minor_version = data.u2()?;
    let major_version = data.u2()?;
    let constant_pool = crate::pool::parse_constant_pool(data)?;
    match crate::pool::check_pool(&constant_pool) {
        Ok(_) => {},
        Err(e) => {
            return Err(e);
        },
    }
    proof {
        let dv = constant_pool.deep_view();
        assert forall|j: int| 0 <= j < dv.len() implies crate::pool::wf_entry(
            dv,
            #[trigger] dv[j],
        ) by {
            assert(crate::pool::utf8_ok(dv[j]));
            assert(crate::pool::entry_ref_err(dv, dv[j]) is None);
        }
        assert(crate::pool::wf_pool(dv));
    }
    let access_flags = data.u2()?;
    let this_class = data.cp(&constant_pool, CpKind::Class)?;
    let super_class = data.cp(&constant_pool, CpKind::Class)?;
    let ic = data.u2()?;
    let interfaces = crate::attrs::parse_class_refs(data, &constant_pool, ic)?;
    let fc = data.u2()?;
    let fields = parse_raw_members(data, &constant_pool, fc)?;
    let mc = data.u2()?;
    let methods = parse_raw_members(data, &constant_pool, mc)?;
    let ac = data.u2()?;
    let attributes = parse_raw_attrs(data, &constant_pool, ac)?;
    Ok(
        RawClass {
            magic,
            minor_version,
            major_version,
            constant_pool,
            access_flags,
            this_class,
            super_class,
            interfaces,
            fields,
            methods,
            attributes,
        },
    )
}

} // verus!
