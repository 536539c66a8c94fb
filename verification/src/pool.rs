use vstd::prelude::*;

use crate::cursor::{be16, be32, sp_take, sp_u16, sp_u8, Data, PRes};
use crate::err::{ErrKind, ParseErr};

verus! {

// ---------------------------------------------------------------------------
// Entry model
// ---------------------------------------------------------------------------
/// A constant pool entry. The pool is addressed by 1-based indices; a Long or
/// Double entry occupies two slots, and the slot after it is stored as
/// `Reserved` so that file indices keep addressing the intended entries.
/// Cross-pool indices inside entries are plain 1-based indices; they are
/// validated against the finished pool in a completion pass.
#[derive(Debug, PartialEq, Eq)]
pub enum CpEntry {
    Utf8 { bytes: Vec<u8> },
    Integer { bytes: u32 },
    Float { bytes: u32 },
    Long { high_bytes: u32, low_bytes: u32 },
    Double { high_bytes: u32, low_bytes: u32 },
    Class { name_index: u16 },
    String { string_index: u16 },
    Fieldref { class_index: u16, name_and_type_index: u16 },
    Methodref { class_index: u16, name_and_type_index: u16 },
    InterfaceMethodref { class_index: u16, name_and_type_index: u16 },
    NameAndType { name_index: u16, descriptor_index: u16 },
    MethodHandle { reference_kind: u8, reference_index: u16 },
    MethodType { descriptor_index: u16 },
    Dynamic { bootstrap_method_attr_index: u16, name_and_type_index: u16 },
    InvokeDynamic { bootstrap_method_attr_index: u16, name_and_type_index: u16 },
    Module { name_index: u16 },
    Package { name_index: u16 },
    Reserved,
}

/// The mathematical model of a pool entry: identical to `CpEntry` except
/// that the Utf8 payload is a `Seq`.
pub enum CpEntryV {
    Utf8 { bytes: Seq<u8> },
    Integer { bytes: u32 },
    Float { bytes: u32 },
    Long { high_bytes: u32, low_bytes: u32 },
    Double { high_bytes: u32, low_bytes: u32 },
    Class { name_index: u16 },
    String { string_index: u16 },
    Fieldref { class_index: u16, name_and_type_index: u16 },
    Methodref { class_index: u16, name_and_type_index: u16 },
    InterfaceMethodref { class_index: u16, name_and_type_index: u16 },
    NameAndType { name_index: u16, descriptor_index: u16 },
    MethodHandle { reference_kind: u8, reference_index: u16 },
    MethodType { descriptor_index: u16 },
    Dynamic { bootstrap_method_attr_index: u16, name_and_type_index: u16 },
    InvokeDynamic { bootstrap_method_attr_index: u16, name_and_type_index: u16 },
    Module { name_index: u16 },
    Package { name_index: u16 },
    Reserved,
}

impl DeepView for CpEntry {
    type V = CpEntryV;

    open spec fn deep_view(&self) -> CpEntryV {
        match self {
            CpEntry::Utf8 { bytes } => CpEntryV::Utf8 { bytes: bytes@ },
            CpEntry::Integer { bytes } => CpEntryV::Integer { bytes: *bytes },
            CpEntry::Float { bytes } => CpEntryV::Float { bytes: *bytes },
            CpEntry::Long { high_bytes, low_bytes } => CpEntryV::Long {
                high_bytes: *high_bytes,
                low_bytes: *low_bytes,
            },
            CpEntry::Double { high_bytes, low_bytes } => CpEntryV::Double {
                high_bytes: *high_bytes,
                low_bytes: *low_bytes,
            },
            CpEntry::Class { name_index } => CpEntryV::Class { name_index: *name_index },
            CpEntry::String { string_index } => CpEntryV::String { string_index: *string_index },
            CpEntry::Fieldref { class_index, name_and_type_index } => CpEntryV::Fieldref {
                class_index: *class_index,
                name_and_type_index: *name_and_type_index,
            },
            CpEntry::Methodref { class_index, name_and_type_index } => CpEntryV::Methodref {
                class_index: *class_index,
                name_and_type_index: *name_and_type_index,
            },
            CpEntry::InterfaceMethodref { class_index, name_and_type_index } =>
                CpEntryV::InterfaceMethodref {
                class_index: *class_index,
                name_and_type_index: *name_and_type_index,
            },
            CpEntry::NameAndType { name_index, descriptor_index } => CpEntryV::NameAndType {
                name_index: *name_index,
                descriptor_index: *descriptor_index,
            },
            CpEntry::MethodHandle { reference_kind, reference_index } => CpEntryV::MethodHandle {
                reference_kind: *reference_kind,
                reference_index: *reference_index,
            },
            CpEntry::MethodType { descriptor_index } => CpEntryV::MethodType {
                descriptor_index: *descriptor_index,
            },
            CpEntry::Dynamic { bootstrap_method_attr_index, name_and_type_index } =>
                CpEntryV::Dynamic {
                bootstrap_method_attr_index: *bootstrap_method_attr_index,
                name_and_type_index: *name_and_type_index,
            },
            CpEntry::InvokeDynamic { bootstrap_method_attr_index, name_and_type_index } =>
                CpEntryV::InvokeDynamic {
                bootstrap_method_attr_index: *bootstrap_method_attr_index,
                name_and_type_index: *name_and_type_index,
            },
            CpEntry::Module { name_index } => CpEntryV::Module { name_index: *name_index },
            CpEntry::Package { name_index } => CpEntryV::Package { name_index: *name_index },
            CpEntry::Reserved => CpEntryV::Reserved,
        }
    }
}

/// The kind tag of a pool entry, used for reference validation.
#[derive(Clone, Copy, Debug, PartialEq, Eq, Structural)]
pub enum CpKind {
    Utf8,
    Integer,
    Float,
    Long,
    Double,
    Class,
    String,
    Fieldref,
    Methodref,
    InterfaceMethodref,
    NameAndType,
    MethodHandle,
    MethodType,
    Dynamic,
    InvokeDynamic,
    Module,
    Package,
    Reserved,
}

/// The kind of an entry.
pub open spec fn kind_of(e: CpEntryV) -> CpKind {
    match e {
        CpEntryV::Utf8 { .. } => CpKind::Utf8,
        CpEntryV::Integer { .. } => CpKind::Integer,
        CpEntryV::Float { .. } => CpKind::Float,
        CpEntryV::Long { .. } => CpKind::Long,
        CpEntryV::Double { .. } => CpKind::Double,
        CpEntryV::Class { .. } => CpKind::Class,
        CpEntryV::String { .. } => CpKind::String,
        CpEntryV::Fieldref { .. } => CpKind::Fieldref,
        CpEntryV::Methodref { .. } => CpKind::Methodref,
        CpEntryV::InterfaceMethodref { .. } => CpKind::InterfaceMethodref,
        CpEntryV::NameAndType { .. } => CpKind::NameAndType,
        CpEntryV::MethodHandle { .. } => CpKind::MethodHandle,
        CpEntryV::MethodType { .. } => CpKind::MethodType,
        CpEntryV::Dynamic { .. } => CpKind::Dynamic,
        CpEntryV::InvokeDynamic { .. } => CpKind::InvokeDynamic,
        CpEntryV::Module { .. } => CpKind::Module,
        CpEntryV::Package { .. } => CpKind::Package,
        CpEntryV::Reserved => CpKind::Reserved,
    }
}

/// An entry occupying two pool slots.
pub open spec fn wide_entry(e: CpEntryV) -> bool {
    kind_of(e) == CpKind::Long || kind_of(e) == CpKind::Double
}

// ---------------------------------------------------------------------------
// Modified UTF-8
// ---------------------------------------------------------------------------
/// A UTF-8 continuation byte.
pub open spec fn cont_byte(x: u8) -> bool {
    0x80 <= x <= 0xBF
}

/// Well-formedness of modified UTF-8 from position `i` on: one-byte codes
/// are 0x01..=0x7F (NUL is excluded, it gets a two-byte code), and only two-
/// and three-byte sequences exist (supplementary characters appear as two
/// three-byte surrogate codes).
pub open spec fn valid_mutf8_from(b: Seq<u8>, i: int) -> bool
    decreases b.len() - i,
{
    if i >= b.len() {
        true
    } else if i < 0 {
        false
    } else {
        let x = b[i];
        if 0x01 <= x <= 0x7F {
            valid_mutf8_from(b, i + 1)
        } else if 0xC0 <= x <= 0xDF {
            i + 2 <= b.len() && cont_byte(b[i + 1]) && valid_mutf8_from(b, i + 2)
        } else if 0xE0 <= x <= 0xEF {
            i + 3 <= b.len() && cont_byte(b[i + 1]) && cont_byte(b[i + 2]) && valid_mutf8_from(
                b,
                i + 3,
            )
        } else {
            false
        }
    }
}

/// Well-formedness of a whole modified UTF-8 payload.
pub open spec fn valid_mutf8(b: Seq<u8>) -> bool {
    valid_mutf8_from(b, 0)
}

/// Check a payload for modified UTF-8 well-formedness.
pub fn check_mutf8(b: &Vec<u8>) -> (r: bool)
    ensures
        r == valid_mutf8(b@),
{
    let n = b.len();
    let mut i: usize = 0;
    while i < n
        invariant
            i <= n,
            n == b@.len(),
            valid_mutf8(b@) == valid_mutf8_from(b@, i as int),
        decreases n - i,
    {
        let x = b[i];
        if 0x01 <= x && x <= 0x7F {
            i = i + 1;
        } else if 0xC0 <= x && x <= 0xDF {
            if n - i >= 2 && 0x80 <= b[i + 1] && b[i + 1] <= 0xBF {
                i = i + 2;
            } else {
                return false;
            }
        } else if 0xE0 <= x && x <= 0xEF {
            if n - i >= 3 && 0x80 <= b[i + 1] && b[i + 1] <= 0xBF && 0x80 <= b[i + 2] && b[i + 2]
                <= 0xBF {
                i = i + 3;
            } else {
                return false;
            }
        } else {
            return false;
        }
    }
    true
}

// ---------------------------------------------------------------------------
// Reference validation (the pool snapshot is always the finished pool)
// ---------------------------------------------------------------------------
/// A valid 1-based reference to an entry of kind `k`.
pub open spec fn valid_ref(pool: Seq<CpEntryV>, i: u16, k: CpKind) -> bool {
    1 <= i as int && i as int <= pool.len() && kind_of(pool[i as int - 1]) == k
}

/// A reference that must be in bounds but whose kind is not narrowed.
pub open spec fn valid_any_ref(pool: Seq<CpEntryV>, i: u16) -> bool {
    1 <= i as int && i as int <= pool.len()
}

/// A nullable reference: either the sentinel 0 or a valid reference.
pub open spec fn valid_opt_ref(pool: Seq<CpEntryV>, i: u16, k: CpKind) -> bool {
    i == 0 || valid_ref(pool, i, k)
}

/// What the validator reports for index `i` expected to be of kind `k`:
/// `None` on success, otherwise the error kind.
pub open spec fn ref_err(pool: Seq<CpEntryV>, i: u16, k: CpKind) -> Option<ErrKind> {
    if i == 0 || i as int > pool.len() {
        Some(ErrKind::PoolOob)
    } else if kind_of(pool[i as int - 1]) != k {
        Some(ErrKind::PoolKindMismatch)
    } else {
        None
    }
}

/// The kind of an entry, executably.
pub fn entry_kind(e: &CpEntry) -> (r: CpKind)
    ensures
        r == kind_of(e.deep_view()),
{
    match e {
        CpEntry::Utf8 { .. } => CpKind::Utf8,
        CpEntry::Integer { .. } => CpKind::Integer,
        CpEntry::Float { .. } => CpKind::Float,
        CpEntry::Long { .. } => CpKind::Long,
        CpEntry::Double { .. } => CpKind::Double,
        CpEntry::Class { .. } => CpKind::Class,
        CpEntry::String { .. } => CpKind::String,
        CpEntry::Fieldref { .. } => CpKind::Fieldref,
        CpEntry::Methodref { .. } => CpKind::Methodref,
        CpEntry::InterfaceMethodref { .. } => CpKind::InterfaceMethodref,
        CpEntry::NameAndType { .. } => CpKind::NameAndType,
        CpEntry::MethodHandle { .. } => CpKind::MethodHandle,
        CpEntry::MethodType { .. } => CpKind::MethodType,
        CpEntry::Dynamic { .. } => CpKind::Dynamic,
        CpEntry::InvokeDynamic { .. } => CpKind::InvokeDynamic,
        CpEntry::Module { .. } => CpKind::Module,
        CpEntry::Package { .. } => CpKind::Package,
        CpEntry::Reserved => CpKind::Reserved,
    }
}

/// The reference validator: asserts that 1-based index `i` denotes an entry
/// of kind `expected` in the finished pool.
pub fn check_ref(pool: &Vec<CpEntry>, i: u16, expected: CpKind) -> (r: Result<(), ParseErr>)
    ensures
        match r {
            Ok(_) => ref_err(pool.deep_view(), i, expected) is None,
            Err(e) => ref_err(pool.deep_view(), i, expected) == Some(e.kind),
        },
        r is Ok <==> valid_ref(pool.deep_view(), i, expected),
{
    proof {
        assert(pool.deep_view().len() == pool@.len());
    }
    if i == 0 || i as usize > pool.len() {
        Err(ParseErr { kind: ErrKind::PoolOob })
    } else {
        let k = entry_kind(&pool[i as usize - 1]);
        proof {
            assert(pool.deep_view()[i as int - 1] == pool@[i as int - 1].deep_view());
        }
        if k == expected {
            Ok(())
        } else {
            Err(ParseErr { kind: ErrKind::PoolKindMismatch })
        }
    }
}

// ---------------------------------------------------------------------------
// Pool-reading cursor extensions (read an index, then validate it)
// ---------------------------------------------------------------------------
/// Read a u16 pool reference and validate it as kind `k`.
pub open spec fn sp_cp_ref(s: Seq<u8>, i: int, pool: Seq<CpEntryV>, k: CpKind) -> PRes<u16> {
    match sp_u16(s, i) {
        PRes::POk(v, j) => match ref_err(pool, v, k) {
            None => PRes::POk(v, j),
            Some(kd) => PRes::PFail(kd),
        },
        PRes::PFail(kd) => PRes::PFail(kd),
    }
}

/// Read a u16 pool reference and validate it as kind `k`, allowing the
/// sentinel index 0.
pub open spec fn sp_cp_ref_opt(s: Seq<u8>, i: int, pool: Seq<CpEntryV>, k: CpKind) -> PRes<u16> {
    match sp_u16(s, i) {
        PRes::POk(v, j) => if v == 0 {
            PRes::POk(v, j)
        } else {
            match ref_err(pool, v, k) {
                None => PRes::POk(v, j),
                Some(kd) => PRes::PFail(kd),
            }
        },
        PRes::PFail(kd) => PRes::PFail(kd),
    }
}

/// Read a u16 pool reference and check only that it is in bounds.
pub open spec fn sp_cp_ref_any(s: Seq<u8>, i: int, pool: Seq<CpEntryV>) -> PRes<u16> {
    match sp_u16(s, i) {
        PRes::POk(v, j) => if v == 0 || v as int > pool.len() {
            PRes::PFail(ErrKind::PoolOob)
        } else {
            PRes::POk(v, j)
        },
        PRes::PFail(kd) => PRes::PFail(kd),
    }
}

impl<'a> Data<'a> {
    /// Read a u16 and validate it in the constant pool as kind `expected`.
    pub fn cp(&mut self, pool: &Vec<CpEntry>, expected: CpKind) -> (r: Result<u16, ParseErr>)
        requires
            old(self).wf(),
        ensures
            final(self).wf(),
            final(self).sbytes() == old(self).sbytes(),
            old(self).at() <= final(self).at(),
            match r {
                Ok(v) => sp_cp_ref(old(self).sbytes(), old(self).at(), pool.deep_view(), expected)
                    == PRes::<u16>::POk(v, final(self).at()) && valid_ref(
                    pool.deep_view(),
                    v,
                    expected,
                ),
                Err(e) => sp_cp_ref(old(self).sbytes(), old(self).at(), pool.deep_view(), expected)
                    == PRes::<u16>::PFail(e.kind),
            },
    {
        let v = self.u2()?;
        match check_ref(pool, v, expected) {
            Ok(_) => Ok(v),
            Err(e) => Err(e),
        }
    }

    /// Read a u16 and validate it as kind `expected` unless it is the
    /// sentinel 0, which some sites use for "absent".
    pub fn cp_opt(&mut self, pool: &Vec<CpEntry>, expected: CpKind) -> (r: Result<u16, ParseErr>)
        requires
            old(self).wf(),
        ensures
            final(self).wf(),
            final(self).sbytes() == old(self).sbytes(),
            old(self).at() <= final(self).at(),
            match r {
                Ok(v) => sp_cp_ref_opt(
                    old(self).sbytes(),
                    old(self).at(),
                    pool.deep_view(),
                    expected,
                ) == PRes::<u16>::POk(v, final(self).at()) && valid_opt_ref(
                    pool.deep_view(),
                    v,
                    expected,
                ),
                Err(e) => sp_cp_ref_opt(
                    old(self).sbytes(),
                    old(self).at(),
                    pool.deep_view(),
                    expected,
                ) == PRes::<u16>::PFail(e.kind),
            },
    {
        let v = self.u2()?;
        if v == 0 {
            return Ok(v);
        }
        match check_ref(pool, v, expected) {
            Ok(_) => Ok(v),
            Err(e) => Err(e),
        }
    }

    /// Read a u16 pool index and check only that it is in bounds.
    pub fn cp_any(&mut self, pool: &Vec<CpEntry>) -> (r: Result<u16, ParseErr>)
        requires
            old(self).wf(),
        ensures
            final(self).wf(),
            final(self).sbytes() == old(self).sbytes(),
            old(self).at() <= final(self).at(),
            match r {
                Ok(v) => sp_cp_ref_any(old(self).sbytes(), old(self).at(), pool.deep_view())
                    == PRes::<u16>::POk(v, final(self).at()) && valid_any_ref(pool.deep_view(), v),
                Err(e) => sp_cp_ref_any(old(self).sbytes(), old(self).at(), pool.deep_view())
                    == PRes::<u16>::PFail(e.kind),
            },
    {
        let v = self.u2()?;
        proof {
            assert(pool.deep_view().len() == pool@.len());
        }
        if v == 0 || v as usize > pool.len() {
            Err(ParseErr { kind: ErrKind::PoolOob })
        } else {
            Ok(v)
        }
    }
}

// ---------------------------------------------------------------------------
// Entry decoding
// ---------------------------------------------------------------------------
/// Decode one pool entry at position `i`: a tag byte, then the fixed layout
/// of that tag. Cross-pool indices are not validated here; the MethodHandle
/// reference kind and Utf8 well-formedness are.
pub open spec fn sp_cp_entry(s: Seq<u8>, i: int) -> PRes<CpEntryV> {
    match sp_u8(s, i) {
        PRes::PFail(k) => PRes::PFail(k),
        PRes::POk(tag, j) => if tag == 1 {
            match sp_u16(s, j) {
                PRes::PFail(k) => PRes::PFail(k),
                PRes::POk(len, j2) => match sp_take(s, j2, len as int) {
                    PRes::PFail(k) => PRes::PFail(k),
                    PRes::POk(bs, j3) => if valid_mutf8(bs) {
                        PRes::POk(CpEntryV::Utf8 { bytes: bs }, j3)
                    } else {
                        PRes::PFail(ErrKind::BadUtf8)
                    },
                },
            }
        } else if tag == 3 {
            match crate::cursor::sp_u32(s, j) {
                PRes::PFail(k) => PRes::PFail(k),
                PRes::POk(v, j2) => PRes::POk(CpEntryV::Integer { bytes: v }, j2),
            }
        } else if tag == 4 {
            match crate::cursor::sp_u32(s, j) {
                PRes::PFail(k) => PRes::PFail(k),
                PRes::POk(v, j2) => PRes::POk(CpEntryV::Float { bytes: v }, j2),
            }
        } else if tag == 5 {
            match crate::cursor::sp_u32(s, j) {
                PRes::PFail(k) => PRes::PFail(k),
                PRes::POk(hi, j2) => match crate::cursor::sp_u32(s, j2) {
                    PRes::PFail(k) => PRes::PFail(k),
                    PRes::POk(lo, j3) => PRes::POk(
                        CpEntryV::Long { high_bytes: hi, low_bytes: lo },
                        j3,
                    ),
                },
            }
        } else if tag == 6 {
            match crate::cursor::sp_u32(s, j) {
                PRes::PFail(k) => PRes::PFail(k),
                PRes::POk(hi, j2) => match crate::cursor::sp_u32(s, j2) {
                    PRes::PFail(k) => PRes::PFail(k),
                    PRes::POk(lo, j3) => PRes::POk(
                        CpEntryV::Double { high_bytes: hi, low_bytes: lo },
                        j3,
                    ),
                },
            }
        } else if tag == 7 {
            match sp_u16(s, j) {
                PRes::PFail(k) => PRes::PFail(k),
                PRes::POk(v, j2) => PRes::POk(CpEntryV::Class { name_index: v }, j2),
            }
        } else if tag == 8 {
            match sp_u16(s, j) {
                PRes::PFail(k) => PRes::PFail(k),
                PRes::POk(v, j2) => PRes::POk(CpEntryV::String { string_index: v }, j2),
            }
        } else if tag == 9 {
            match sp_u16(s, j) {
                PRes::PFail(k) => PRes::PFail(k),
                PRes::POk(c, j2) => match sp_u16(s, j2) {
                    PRes::PFail(k) => PRes::PFail(k),
                    PRes::POk(n, j3) => PRes::POk(
                        CpEntryV::Fieldref { class_index: c, name_and_type_index: n },
                        j3,
                    ),
                },
            }
        } else if tag == 10 {
            match sp_u16(s, j) {
                PRes::PFail(k) => PRes::PFail(k),
                PRes::POk(c, j2) => match sp_u16(s, j2) {
                    PRes::PFail(k) => PRes::PFail(k),
                    PRes::POk(n, j3) => PRes::POk(
                        CpEntryV::Methodref { class_index: c, name_and_type_index: n },
                        j3,
                    ),
                },
            }
        } else if tag == 11 {
            match sp_u16(s, j) {
                PRes::PFail(k) => PRes::PFail(k),
                PRes::POk(c, j2) => match sp_u16(s, j2) {
                    PRes::PFail(k) => PRes::PFail(k),
                    PRes::POk(n, j3) => PRes::POk(
                        CpEntryV::InterfaceMethodref { class_index: c, name_and_type_index: n },
                        j3,
                    ),
                },
            }
        } else if tag == 12 {
            match sp_u16(s, j) {
                PRes::PFail(k) => PRes::PFail(k),
                PRes::POk(n, j2) => match sp_u16(s, j2) {
                    PRes::PFail(k) => PRes::PFail(k),
                    PRes::POk(d, j3) => PRes::POk(
                        CpEntryV::NameAndType { name_index: n, descriptor_index: d },
                        j3,
                    ),
                },
            }
        } else if tag == 15 {
            match sp_u8(s, j) {
                PRes::PFail(k) => PRes::PFail(k),
                PRes::POk(rk, j2) => if 1 <= rk && rk <= 9 {
                    match sp_u16(s, j2) {
                        PRes::PFail(k) => PRes::PFail(k),
                        PRes::POk(ri, j3) => PRes::POk(
                            CpEntryV::MethodHandle { reference_kind: rk, reference_index: ri },
                            j3,
                        ),
                    }
                } else {
                    PRes::PFail(ErrKind::InvalidMethodHandleKind)
                },
            }
        } else if tag == 16 {
            match sp_u16(s, j) {
                PRes::PFail(k) => PRes::PFail(k),
                PRes::POk(v, j2) => PRes::POk(CpEntryV::MethodType { descriptor_index: v }, j2),
            }
        } else if tag == 17 {
            match sp_u16(s, j) {
                PRes::PFail(k) => PRes::PFail(k),
                PRes::POk(b, j2) => match sp_u16(s, j2) {
                    PRes::PFail(k) => PRes::PFail(k),
                    PRes::POk(n, j3) => PRes::POk(
                        CpEntryV::Dynamic {
                            bootstrap_method_attr_index: b,
                            name_and_type_index: n,
                        },
                        j3,
                    ),
                },
            }
        } else if tag == 18 {
            match sp_u16(s, j) {
                PRes::PFail(k) => PRes::PFail(k),
                PRes::POk(b, j2) => match sp_u16(s, j2) {
                    PRes::PFail(k) => PRes::PFail(k),
                    PRes::POk(n, j3) => PRes::POk(
                        CpEntryV::InvokeDynamic {
                            bootstrap_method_attr_index: b,
                            name_and_type_index: n,
                        },
                        j3,
                    ),
                },
            }
        } else if tag == 19 {
            match sp_u16(s, j) {
                PRes::PFail(k) => PRes::PFail(k),
                PRes::POk(v, j2) => PRes::POk(CpEntryV::Module { name_index: v }, j2),
            }
        } else if tag == 20 {
            match sp_u16(s, j) {
                PRes::PFail(k) => PRes::PFail(k),
                PRes::POk(v, j2) => PRes::POk(CpEntryV::Package { name_index: v }, j2),
            }
        } else {
            PRes::PFail(ErrKind::UnknownCpTag)
        },
    }
}

/// A Utf8 entry carries a well-formed modified UTF-8 payload.
pub open spec fn utf8_ok(e: CpEntryV) -> bool {
    match e {
        CpEntryV::Utf8 { bytes } => valid_mutf8(bytes),
        _ => true,
    }
}

/// Decode one constant pool entry.
pub fn parse_cp_entry(data: &mut Data) -> (r: Result<CpEntry, ParseErr>)
    requires
        old(data).wf(),
    ensures
        final(data).wf(),
        final(data).sbytes() == old(data).sbytes(),
        old(data).at() <= final(data).at(),
        match r {
            Ok(e) => sp_cp_entry(old(data).sbytes(), old(data).at()) == PRes::<CpEntryV>::POk(
                e.deep_view(),
                final(data).at(),
            ) && utf8_ok(e.deep_view()),
            Err(e) => sp_cp_entry(old(data).sbytes(), old(data).at()) == PRes::<CpEntryV>::PFail(
                e.kind,
            ),
        },
{
    let tag = data.u1()?;
    match tag {
        1 => {
            let len = data.u2()?;
            let bs = data.bytes(len as usize)?;
            if check_mutf8(&bs) {
                Ok(CpEntry::Utf8 { bytes: bs })
            } else {
                Err(ParseErr { kind: ErrKind::BadUtf8 })
            }
        },
        3 => Ok(CpEntry::Integer { bytes: data.u4()? }),
        4 => Ok(CpEntry::Float { bytes: data.u4()? }),
        5 => {
            let hi = data.u4()?;
            let lo = data.u4()?;
            Ok(CpEntry::Long { high_bytes: hi, low_bytes: lo })
        },
        6 => {
            let hi = data.u4()?;
            let lo = data.u4()?;
            Ok(CpEntry::Double { high_bytes: hi, low_bytes: lo })
        },
        7 => Ok(CpEntry::Class { name_index: data.u2()? }),
        8 => Ok(CpEntry::String { string_index: data.u2()? }),
        9 => {
            let c = data.u2()?;
            let n = data.u2()?;
            Ok(CpEntry::Fieldref { class_index: c, name_and_type_index: n })
        },
        10 => {
            let c = data.u2()?;
            let n = data.u2()?;
            Ok(CpEntry::Methodref { class_index: c, name_and_type_index: n })
        },
        11 => {
            let c = data.u2()?;
            let n = data.u2()?;
            Ok(CpEntry::InterfaceMethodref { class_index: c, name_and_type_index: n })
        },
        12 => {
            let n = data.u2()?;
            let d = data.u2()?;
            Ok(CpEntry::NameAndType { name_index: n, descriptor_index: d })
        },
        15 => {
            let rk = data.u1()?;
            if 1 <= rk && rk <= 9 {
                let ri = data.u2()?;
                Ok(CpEntry::MethodHandle { reference_kind: rk, reference_index: ri })
            } else {
                Err(ParseErr { kind: ErrKind::InvalidMethodHandleKind })
            }
        },
        16 => Ok(CpEntry::MethodType { descriptor_index: data.u2()? }),
        17 => {
            let b = data.u2()?;
            let n = data.u2()?;
            Ok(CpEntry::Dynamic { bootstrap_method_attr_index: b, name_and_type_index: n })
        },
        18 => {
            let b = data.u2()?;
            let n = data.u2()?;
            Ok(CpEntry::InvokeDynamic { bootstrap_method_attr_index: b, name_and_type_index: n })
        },
        19 => Ok(CpEntry::Module { name_index: data.u2()? }),
        20 => Ok(CpEntry::Package { name_index: data.u2()? }),
        _ => Err(ParseErr { kind: ErrKind::UnknownCpTag }),
    }
}

// ---------------------------------------------------------------------------
// The pool loop
// ---------------------------------------------------------------------------
/// Prefix an already-decoded run of entries onto the outcome of decoding the
/// rest.
pub open spec fn compose_entries(prefix: Seq<CpEntryV>, rest: PRes<Seq<CpEntryV>>) -> PRes<
    Seq<CpEntryV>,
> {
    match rest {
        PRes::POk(v, e) => PRes::POk(prefix + v, e),
        PRes::PFail(k) => PRes::PFail(k),
    }
}

/// Decode entries until `n` pool slots are filled. A Long or Double entry
/// fills two slots; the second is stored as `Reserved`.
pub open spec fn sp_pool_items(s: Seq<u8>, i: int, n: int) -> PRes<Seq<CpEntryV>>
    decreases n,
{
    if n <= 0 {
        PRes::POk(Seq::empty(), i)
    } else {
        match sp_cp_entry(s, i) {
            PRes::PFail(k) => PRes::PFail(k),
            PRes::POk(e, j) => if wide_entry(e) {
                compose_entries(
                    seq![e, CpEntryV::Reserved],
                    sp_pool_items(s, j, if n >= 2 { n - 2 } else { 0 }),
                )
            } else {
                compose_entries(seq![e], sp_pool_items(s, j, n - 1))
            },
        }
    }
}

/// Decode the whole constant pool: the declared length `N`, then entries
/// filling `N - 1` slots (slot 0 is reserved by the format and never stored).
pub open spec fn sp_constant_pool(s: Seq<u8>, i: int) -> PRes<Seq<CpEntryV>> {
    match sp_u16(s, i) {
        PRes::PFail(k) => PRes::PFail(k),
        PRes::POk(n, j) => sp_pool_items(s, j, n as int - 1),
    }
}

/// All Utf8 entries of the pool carry well-formed payloads.
pub open spec fn pool_utf8_ok(pool: Seq<CpEntryV>) -> bool {
    forall|j: int| 0 <= j < pool.len() ==> utf8_ok(#[trigger] pool[j])
}

/// Prefixing distributes over composition.
proof fn lemma_compose_assoc(a: Seq<CpEntryV>, b: Seq<CpEntryV>, r: PRes<Seq<CpEntryV>>)
    ensures
        compose_entries(a + b, r) == compose_entries(a, compose_entries(b, r)),
{
    match r {
        PRes::POk(v, e) => {
            assert((a + b) + v =~= a + (b + v));
        },
        PRes::PFail(_) => {},
    }
}

/// Decode the constant pool.
pub fn parse_constant_pool(data: &mut Data) -> (r: Result<Vec<CpEntry>, ParseErr>)
    requires
        old(data).wf(),
    ensures
        final(data).wf(),
        final(data).sbytes() == old(data).sbytes(),
        old(data).at() <= final(data).at(),
        match r {
            Ok(pool) => sp_constant_pool(old(data).sbytes(), old(data).at()) == PRes::<
                Seq<CpEntryV>,
            >::POk(pool.deep_view(), final(data).at()) && pool_utf8_ok(pool.deep_view()),
            Err(e) => sp_constant_pool(old(data).sbytes(), old(data).at()) == PRes::<
                Seq<CpEntryV>,
            >::PFail(e.kind),
        },
{
    let ghost s0 = old(data).sbytes();
    let n = data.u2()?;
    let ghost j0 = data.at();
    let mut items: Vec<CpEntry> = Vec::new();
    let mut left: usize = if n == 0 {
        0
    } else {
        (n - 1) as usize
    };
    let ghost slots0 = n as int - 1;
    proof {
        assert(items.deep_view() =~= Seq::<CpEntryV>::empty());
    }
    while left > 0
        invariant
            data.wf(),
            s0 == old(data).sbytes(),
            data.sbytes() == s0,
            old(data).at() <= j0,
            j0 <= data.at(),
            sp_constant_pool(old(data).sbytes(), old(data).at()) == sp_pool_items(s0, j0, slots0),
            sp_pool_items(s0, j0, slots0) == compose_entries(
                items.deep_view(),
                sp_pool_items(s0, data.at(), left as int),
            ),
            pool_utf8_ok(items.deep_view()),
        decreases left,
    {
        let ghost items_pre = items.deep_view();
        let ghost at_pre = data.at();
        let ghost left_pre = left as int;
        let e = match parse_cp_entry(data) {
            Ok(e) => e,
            Err(err) => {
                proof {
                    assert(sp_pool_items(s0, at_pre, left_pre) == PRes::<Seq<CpEntryV>>::PFail(
                        err.kind,
                    ));
                }
                return Err(err);
            },
        };
        let wide = match &e {
            CpEntry::Long { .. } => true,
            CpEntry::Double { .. } => true,
            _ => false,
        };
        proof {
            assert(wide == wide_entry(e.deep_view()));
        }
        let ghost ev = e.deep_view();
        if wide {
            items.push(e);
            items.push(CpEntry::Reserved);
            proof {
                assert(items.deep_view() =~= items_pre + seq![ev, CpEntryV::Reserved]);
                lemma_compose_assoc(
                    items_pre,
                    seq![ev, CpEntryV::Reserved],
                    sp_pool_items(
                        s0,
                        data.at(),
                        if left_pre >= 2 { left_pre - 2 } else { 0 },
                    ),
                );
            }
            if left >= 2 {
                left = left - 2;
            } else {
                left = 0;
            }
        } else {
            items.push(e);
            proof {
                assert(items.deep_view() =~= items_pre + seq![ev]);
                lemma_compose_assoc(
                    items_pre,
                    seq![ev],
                    sp_pool_items(s0, data.at(), left_pre - 1),
                );
            }
            left = left - 1;
        }
        proof {
            assert(pool_utf8_ok(items.deep_view()));
        }
    }
    proof {
        assert(sp_pool_items(s0, data.at(), left as int) == PRes::<Seq<CpEntryV>>::POk(
            Seq::<CpEntryV>::empty(),
            data.at(),
        ));
        assert(items.deep_view() + Seq::<CpEntryV>::empty() =~= items.deep_view());
    }
    Ok(items)
}

// ---------------------------------------------------------------------------
// Completion pass: validate the cross-pool references inside entries
// ---------------------------------------------------------------------------
/// The earlier of two validation outcomes.
pub open spec fn first_err(a: Option<ErrKind>, b: Option<ErrKind>) -> Option<ErrKind> {
    if a is Some {
        a
    } else {
        b
    }
}

/// What validating the references inside one entry reports. Forward
/// references are legal, so this always judges against the finished pool.
pub open spec fn entry_ref_err(pool: Seq<CpEntryV>, e: CpEntryV) -> Option<ErrKind> {
    match e {
        CpEntryV::Class { name_index } => ref_err(pool, name_index, CpKind::Utf8),
        CpEntryV::String { string_index } => ref_err(pool, string_index, CpKind::Utf8),
        CpEntryV::Fieldref { class_index, name_and_type_index } => first_err(
            ref_err(pool, class_index, CpKind::Class),
            ref_err(pool, name_and_type_index, CpKind::NameAndType),
        ),
        CpEntryV::Methodref { class_index, name_and_type_index } => first_err(
            ref_err(pool, class_index, CpKind::Class),
            ref_err(pool, name_and_type_index, CpKind::NameAndType),
        ),
        CpEntryV::InterfaceMethodref { class_index, name_and_type_index } => first_err(
            ref_err(pool, class_index, CpKind::Class),
            ref_err(pool, name_and_type_index, CpKind::NameAndType),
        ),
        CpEntryV::NameAndType { name_index, descriptor_index } => first_err(
            ref_err(pool, name_index, CpKind::Utf8),
            ref_err(pool, descriptor_index, CpKind::Utf8),
        ),
        CpEntryV::MethodHandle { reference_kind, reference_index } => if 1 <= reference_kind
            && reference_kind <= 4 {
            ref_err(pool, reference_index, CpKind::Fieldref)
        } else if 5 <= reference_kind && reference_kind <= 8 {
            ref_err(pool, reference_index, CpKind::Methodref)
        } else if reference_kind == 9 {
            ref_err(pool, reference_index, CpKind::InterfaceMethodref)
        } else {
            Some(ErrKind::InvalidMethodHandleKind)
        },
        CpEntryV::MethodType { descriptor_index } => ref_err(pool, descriptor_index, CpKind::Utf8),
        CpEntryV::Dynamic { name_and_type_index, .. } => ref_err(
            pool,
            name_and_type_index,
            CpKind::NameAndType,
        ),
        CpEntryV::InvokeDynamic { name_and_type_index, .. } => ref_err(
            pool,
            name_and_type_index,
            CpKind::NameAndType,
        ),
        CpEntryV::Module { name_index } => ref_err(pool, name_index, CpKind::Utf8),
        CpEntryV::Package { name_index } => ref_err(pool, name_index, CpKind::Utf8),
        _ => None,
    }
}

/// The first validation failure among entries `j` and later, if any.
pub open spec fn pool_check(pool: Seq<CpEntryV>, j: int) -> Option<ErrKind>
    decreases pool.len() - j,
{
    if j < 0 || j >= pool.len() {
        None
    } else {
        first_err(entry_ref_err(pool, pool[j]), pool_check(pool, j + 1))
    }
}

/// A well-formed entry: its references land on entries of the right kinds,
/// and a Utf8 payload is well-formed.
pub open spec fn wf_entry(pool: Seq<CpEntryV>, e: CpEntryV) -> bool {
    entry_ref_err(pool, e) is None && utf8_ok(e)
}

/// A well-formed pool: every entry is well-formed against the whole pool.
pub open spec fn wf_pool(pool: Seq<CpEntryV>) -> bool {
    forall|j: int| 0 <= j < pool.len() ==> wf_entry(pool, #[trigger] pool[j])
}

// ---------------------------------------------------------------------------
// Serialization of pool entries, and the round trip
// ---------------------------------------------------------------------------
/// The two big-endian bytes of a 16-bit integer.
pub open spec fn ser_u16(v: u16) -> Seq<u8> {
    seq![(v / 256) as u8, (v % 256) as u8]
}

/// The four big-endian bytes of a 32-bit integer.
pub open spec fn ser_u32(v: u32) -> Seq<u8> {
    seq![
        (v / 16777216) as u8,
        ((v / 65536) % 256) as u8,
        ((v / 256) % 256) as u8,
        (v % 256) as u8,
    ]
}

/// The byte image of one pool entry: its tag, then its fixed layout. The
/// `Reserved` slot after a Long or Double has no bytes of its own.
pub open spec fn ser_cp_entry(e: CpEntryV) -> Seq<u8> {
    match e {
        CpEntryV::Utf8 { bytes } => seq![1u8] + ser_u16(bytes.len() as u16) + bytes,
        CpEntryV::Integer { bytes } => seq![3u8] + ser_u32(bytes),
        CpEntryV::Float { bytes } => seq![4u8] + ser_u32(bytes),
        CpEntryV::Long { high_bytes, low_bytes } => seq![5u8] + ser_u32(high_bytes) + ser_u32(
            low_bytes,
        ),
        CpEntryV::Double { high_bytes, low_bytes } => seq![6u8] + ser_u32(high_bytes) + ser_u32(
            low_bytes,
        ),
        CpEntryV::Class { name_index } => seq![7u8] + ser_u16(name_index),
        CpEntryV::String { string_index } => seq![8u8] + ser_u16(string_index),
        CpEntryV::Fieldref { class_index, name_and_type_index } => seq![9u8] + ser_u16(class_index)
            + ser_u16(name_and_type_index),
        CpEntryV::Methodref { class_index, name_and_type_index } => seq![10u8] + ser_u16(
            class_index,
        ) + ser_u16(name_and_type_index),
        CpEntryV::InterfaceMethodref { class_index, name_and_type_index } => seq![11u8] + ser_u16(
            class_index,
        ) + ser_u16(name_and_type_index),
        CpEntryV::NameAndType { name_index, descriptor_index } => seq![12u8] + ser_u16(name_index)
            + ser_u16(descriptor_index),
        CpEntryV::MethodHandle { reference_kind, reference_index } => seq![15u8, reference_kind]
            + ser_u16(reference_index),
        CpEntryV::MethodType { descriptor_index } => seq![16u8] + ser_u16(descriptor_index),
        CpEntryV::Dynamic { bootstrap_method_attr_index, name_and_type_index } => seq![17u8]
            + ser_u16(bootstrap_method_attr_index) + ser_u16(name_and_type_index),
        CpEntryV::InvokeDynamic { bootstrap_method_attr_index, name_and_type_index } => seq![18u8]
            + ser_u16(bootstrap_method_attr_index) + ser_u16(name_and_type_index),
        CpEntryV::Module { name_index } => seq![19u8] + ser_u16(name_index),
        CpEntryV::Package { name_index } => seq![20u8] + ser_u16(name_index),
        CpEntryV::Reserved => Seq::empty(),
    }
}

/// Writing a decoded 16-bit integer reproduces its two bytes.
pub proof fn lemma_ser_be16(a: u8, b: u8)
    ensures
        ser_u16(be16(a, b)) =~= seq![a, b],
{
    let v = be16(a, b);
    let ai = a as int;
    let bi = b as int;
    assert(v as int == 256 * ai + bi);
    assert((256 * ai + bi) / 256 == ai) by (nonlinear_arith)
        requires
            0 <= ai,
            0 <= bi,
            bi < 256;
    assert((256 * ai + bi) % 256 == bi) by (nonlinear_arith)
        requires
            0 <= ai,
            0 <= bi,
            bi < 256;
}

/// Writing a decoded 32-bit integer reproduces its four bytes.
pub proof fn lemma_ser_be32(b0: u8, b1: u8, b2: u8, b3: u8)
    ensures
        ser_u32(be32(b0, b1, b2, b3)) =~= seq![b0, b1, b2, b3],
{
    let v = be32(b0, b1, b2, b3) as int;
    let x0 = b0 as int;
    let x1 = b1 as int;
    let x2 = b2 as int;
    let x3 = b3 as int;
    assert(v == 16777216 * x0 + 65536 * x1 + 256 * x2 + x3);
    assert(v / 16777216 == x0 && (v / 65536) % 256 == x1 && (v / 256) % 256 == x2 && v % 256
        == x3) by (nonlinear_arith)
        requires
            v == 16777216 * x0 + 65536 * x1 + 256 * x2 + x3,
            0 <= x0,
            x0 < 256,
            0 <= x1,
            x1 < 256,
            0 <= x2,
            x2 < 256,
            0 <= x3,
            x3 < 256;
}

/// Decoding one pool entry and writing it back reproduces exactly the bytes
/// that were consumed.
pub proof fn lemma_cp_entry_round_trip(s: Seq<u8>, i: int)
    ensures
        sp_cp_entry(s, i) matches PRes::POk(e, end) ==> ser_cp_entry(e) =~= s.subrange(i, end),
{
    if sp_cp_entry(s, i) is POk {
        let tag = s[i];
        if tag == 1 {
            match sp_cp_entry(s, i) {
                PRes::POk(e, end) => {
                    lemma_ser_be16(s[i + 1], s[i + 2]);
                    assert(ser_cp_entry(e) =~= s.subrange(i, end));
                },
                PRes::PFail(_) => {},
            }
        } else if tag == 3 || tag == 4 {
            match sp_cp_entry(s, i) {
                PRes::POk(e, end) => {
                    lemma_ser_be32(s[i + 1], s[i + 2], s[i + 3], s[i + 4]);
                    assert(ser_cp_entry(e) =~= s.subrange(i, end));
                },
                PRes::PFail(_) => {},
            }
        } else if tag == 5 || tag == 6 {
            match sp_cp_entry(s, i) {
                PRes::POk(e, end) => {
                    lemma_ser_be32(s[i + 1], s[i + 2], s[i + 3], s[i + 4]);
                    lemma_ser_be32(s[i + 5], s[i + 6], s[i + 7], s[i + 8]);
                    assert(ser_cp_entry(e) =~= s.subrange(i, end));
                },
                PRes::PFail(_) => {},
            }
        } else if tag == 15 {
            match sp_cp_entry(s, i) {
                PRes::POk(e, end) => {
                    lemma_ser_be16(s[i + 2], s[i + 3]);
                    assert(ser_cp_entry(e) =~= s.subrange(i, end));
                },
                PRes::PFail(_) => {},
            }
        } else if tag == 9 || tag == 10 || tag == 11 || tag == 12 || tag == 17 || tag == 18 {
            match sp_cp_entry(s, i) {
                PRes::POk(e, end) => {
                    lemma_ser_be16(s[i + 1], s[i + 2]);
                    lemma_ser_be16(s[i + 3], s[i + 4]);
                    assert(ser_cp_entry(e) =~= s.subrange(i, end));
                },
                PRes::PFail(_) => {},
            }
        } else {
            match sp_cp_entry(s, i) {
                PRes::POk(e, end) => {
                    lemma_ser_be16(s[i + 1], s[i + 2]);
                    assert(ser_cp_entry(e) =~= s.subrange(i, end));
                },
                PRes::PFail(_) => {},
            }
        }
    }
}

/// The byte image of a run of pool entries, in order.
pub open spec fn ser_cp_entries(v: Seq<CpEntryV>) -> Seq<u8>
    decreases v.len(),
{
    if v.len() == 0 {
        Seq::empty()
    } else {
        ser_cp_entry(v[0]) + ser_cp_entries(v.drop_first())
    }
}

/// Decoding a run of pool entries and writing each one back, in order,
/// reproduces exactly the bytes that were consumed.
#[verifier::rlimit(100)]
#[verifier::spinoff_prover]
pub proof fn lemma_pool_items_round_trip(s: Seq<u8>, i: int, n: int)
    ensures
        sp_pool_items(s, i, n) matches PRes::POk(v, end) ==> (0 <= i <= s.len() ==> (i <= end
            <= s.len() && ser_cp_entries(v) =~= s.subrange(i, end))),
    decreases n,
{
    reveal_with_fuel(ser_cp_entries, 3);
    if n > 0 {
        match sp_cp_entry(s, i) {
            PRes::POk(e, j) => {
                lemma_cp_entry_round_trip(s, i);
                let m = if wide_entry(e) {
                    if n >= 2 {
                        n - 2
                    } else {
                        0
                    }
                } else {
                    n - 1
                };
                lemma_pool_items_round_trip(s, j, m);
                match sp_pool_items(s, j, m) {
                    PRes::POk(rest, end) => {
                        if 0 <= i <= s.len() {
                            if wide_entry(e) {
                                let v = seq![e, CpEntryV::Reserved] + rest;
                                assert(v[0] == e);
                                assert(v.drop_first() =~= seq![CpEntryV::Reserved] + rest);
                                assert((seq![CpEntryV::Reserved] + rest).drop_first() =~= rest);
                                assert(ser_cp_entries(v) =~= ser_cp_entry(e) + ser_cp_entries(
                                    rest,
                                ));
                            } else {
                                let v = seq![e] + rest;
                                assert(v[0] == e);
                                assert(v.drop_first() =~= rest);
                            }
                            assert(s.subrange(i, end) =~= s.subrange(i, j) + s.subrange(j, end));
                        }
                    },
                    PRes::PFail(_) => {},
                }
            },
            PRes::PFail(_) => {},
        }
    }
}

/// Write one pool entry back to bytes.
pub fn serialize_cp_entry(e: &CpEntry) -> (r: Vec<u8>)
    ensures
        r@ == ser_cp_entry(e.deep_view()),
{
    let mut r: Vec<u8> = Vec::new();
    match e {
        CpEntry::Utf8 { bytes } => {
            r.push(1);
            push_u16(&mut r, bytes.len() as u16);
            let mut k: usize = 0;
            while k < bytes.len()
                invariant
                    k <= bytes@.len(),
                    r@ =~= seq![1u8] + ser_u16(bytes@.len() as u16) + bytes@.subrange(0, k as int),
                decreases bytes@.len() - k,
            {
                r.push(bytes[k]);
                k = k + 1;
                proof {
                    assert(bytes@.subrange(0, k as int) =~= bytes@.subrange(0, k as int - 1).push(
                        bytes@[k as int - 1],
                    ));
                }
            }
            proof {
                assert(bytes@.subrange(0, bytes@.len() as int) =~= bytes@);
            }
        },
        CpEntry::Integer { bytes } => {
            r.push(3);
            push_u32(&mut r, *bytes);
        },
        CpEntry::Float { bytes } => {
            r.push(4);
            push_u32(&mut r, *bytes);
        },
        CpEntry::Long { high_bytes, low_bytes } => {
            r.push(5);
            push_u32(&mut r, *high_bytes);
            push_u32(&mut r, *low_bytes);
        },
        CpEntry::Double { high_bytes, low_bytes } => {
            r.push(6);
            push_u32(&mut r, *high_bytes);
            push_u32(&mut r, *low_bytes);
        },
        CpEntry::Class { name_index } => {
            r.push(7);
            push_u16(&mut r, *name_index);
        },
        CpEntry::String { string_index } => {
            r.push(8);
            push_u16(&mut r, *string_index);
        },
        CpEntry::Fieldref { class_index, name_and_type_index } => {
            r.push(9);
            push_u16(&mut r, *class_index);
            push_u16(&mut r, *name_and_type_index);
        },
        CpEntry::Methodref { class_index, name_and_type_index } => {
            r.push(10);
            push_u16(&mut r, *class_index);
            push_u16(&mut r, *name_and_type_index);
        },
        CpEntry::InterfaceMethodref { class_index, name_and_type_index } => {
            r.push(11);
            push_u16(&mut r, *class_index);
            push_u16(&mut r, *name_and_type_index);
        },
        CpEntry::NameAndType { name_index, descriptor_index } => {
            r.push(12);
            push_u16(&mut r, *name_index);
            push_u16(&mut r, *descriptor_index);
        },
        CpEntry::MethodHandle { reference_kind, reference_index } => {
            r.push(15);
            r.push(*reference_kind);
            push_u16(&mut r, *reference_index);
        },
        CpEntry::MethodType { descriptor_index } => {
            r.push(16);
            push_u16(&mut r, *descriptor_index);
        },
        CpEntry::Dynamic { bootstrap_method_attr_index, name_and_type_index } => {
            r.push(17);
            push_u16(&mut r, *bootstrap_method_attr_index);
            push_u16(&mut r, *name_and_type_index);
        },
        CpEntry::InvokeDynamic { bootstrap_method_attr_index, name_and_type_index } => {
            r.push(18);
            push_u16(&mut r, *bootstrap_method_attr_index);
            push_u16(&mut r, *name_and_type_index);
        },
        CpEntry::Module { name_index } => {
            r.push(19);
            push_u16(&mut r, *name_index);
        },
        CpEntry::Package { name_index } => {
            r.push(20);
            push_u16(&mut r, *name_index);
        },
        CpEntry::Reserved => {},
    }
    proof {
        assert(r@ =~= ser_cp_entry(e.deep_view()));
    }
    r
}

/// Append the two big-endian bytes of a 16-bit integer.
fn push_u16(r: &mut Vec<u8>, v: u16)
    ensures
        final(r)@ == old(r)@ + ser_u16(v),
{
    r.push((v / 256) as u8);
    r.push((v % 256) as u8);
    proof {
        assert(r@ =~= old(r)@ + ser_u16(v));
    }
}

/// Append the four big-endian bytes of a 32-bit integer.
fn push_u32(r: &mut Vec<u8>, v: u32)
    ensures
        final(r)@ == old(r)@ + ser_u32(v),
{
    r.push((v / 16777216) as u8);
    r.push(((v / 65536) % 256) as u8);
    r.push(((v / 256) % 256) as u8);
    r.push((v % 256) as u8);
    proof {
        assert(r@ =~= old(r)@ + ser_u32(v));
    }
}

/// Validate the references inside one entry against the finished pool.
pub fn check_entry_refs(pool: &Vec<CpEntry>, e: &CpEntry) -> (r: Result<(), ParseErr>)
    ensures
        match r {
            Ok(_) => entry_ref_err(pool.deep_view(), e.deep_view()) is None,
            Err(er) => entry_ref_err(pool.deep_view(), e.deep_view()) == Some(er.kind),
        },
{
    match e {
        CpEntry::Class { name_index } => check_ref(pool, *name_index, CpKind::Utf8),
        CpEntry::String { string_index } => check_ref(pool, *string_index, CpKind::Utf8),
        CpEntry::Fieldref { class_index, name_and_type_index } => {
            check_ref(pool, *class_index, CpKind::Class)?;
            check_ref(pool, *name_and_type_index, CpKind::NameAndType)
        },
        CpEntry::Methodref { class_index, name_and_type_index } => {
            check_ref(pool, *class_index, CpKind::Class)?;
            check_ref(pool, *name_and_type_index, CpKind::NameAndType)
        },
        CpEntry::InterfaceMethodref { class_index, name_and_type_index } => {
            check_ref(pool, *class_index, CpKind::Class)?;
            check_ref(pool, *name_and_type_index, CpKind::NameAndType)
        },
        CpEntry::NameAndType { name_index, descriptor_index } => {
            check_ref(pool, *name_index, CpKind::Utf8)?;
            check_ref(pool, *descriptor_index, CpKind::Utf8)
        },
        CpEntry::MethodHandle { reference_kind, reference_index } => {
            let rk = *reference_kind;
            if 1 <= rk && rk <= 4 {
                check_ref(pool, *reference_index, CpKind::Fieldref)
            } else if 5 <= rk && rk <= 8 {
                check_ref(pool, *reference_index, CpKind::Methodref)
            } else if rk == 9 {
                check_ref(pool, *reference_index, CpKind::InterfaceMethodref)
            } else {
                Err(ParseErr { kind: ErrKind::InvalidMethodHandleKind })
            }
        },
        CpEntry::MethodType { descriptor_index } => check_ref(pool, *descriptor_index, CpKind::Utf8),
        CpEntry::Dynamic { name_and_type_index, .. } => check_ref(
            pool,
            *name_and_type_index,
            CpKind::NameAndType,
        ),
        CpEntry::InvokeDynamic { name_and_type_index, .. } => check_ref(
            pool,
            *name_and_type_index,
            CpKind::NameAndType,
        ),
        CpEntry::Module { name_index } => check_ref(pool, *name_index, CpKind::Utf8),
        CpEntry::Package { name_index } => check_ref(pool, *name_index, CpKind::Utf8),
        _ => Ok(()),
    }
}

/// The completion pass: validate the references inside every entry of the
/// finished pool, in order, stopping at the first failure.
pub fn check_pool(pool: &Vec<CpEntry>) -> (r: Result<(), ParseErr>)
    ensures
        match r {
            Ok(_) => pool_check(pool.deep_view(), 0) is None && forall|j: int|
                0 <= j < pool.deep_view().len() ==> entry_ref_err(
                    pool.deep_view(),
                    #[trigger] pool.deep_view()[j],
                ) is None,
            Err(e) => pool_check(pool.deep_view(), 0) == Some(e.kind),
        },
{
    let ghost dv = pool.deep_view();
    proof {
        assert(dv.len() == pool@.len());
    }
    let n = pool.len();
    let mut j: usize = 0;
    while j < n
        invariant
            j <= n,
            n == pool@.len(),
            dv == pool.deep_view(),
            dv.len() == pool@.len(),
            pool_check(dv, 0) == pool_check(dv, j as int),
            forall|i: int| 0 <= i < j ==> entry_ref_err(dv, #[trigger] dv[i]) is None,
        decreases n - j,
    {
        proof {
            assert(dv[j as int] == pool@[j as int].deep_view());
        }
        match check_entry_refs(pool, &pool[j]) {
            Ok(_) => {},
            Err(e) => {
                return Err(e);
            },
        }
        j = j + 1;
    }
    Ok(())
}

} // verus!
