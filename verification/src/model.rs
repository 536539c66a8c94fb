use vstd::prelude::*;

use crate::pool::{
    valid_any_ref, valid_opt_ref, valid_ref, wf_pool, CpEntry, CpEntryV, CpKind,
};

verus! {

// ---------------------------------------------------------------------------
// Raw phase: the envelope with attribute payloads still opaque
// ---------------------------------------------------------------------------
/// An attribute as framed by the envelope: its name (a Utf8 pool reference),
/// the declared payload length, and the payload bytes, still opaque. The
/// resolver turns it into an `Attribute`; no unresolved attribute survives in
/// the finished tree.
#[derive(Debug, PartialEq, Eq)]
pub struct RawAttribute {
    pub name_index: u16,
    pub length: u32,
    pub payload: Vec<u8>,
}

/// Model of `RawAttribute`.
pub struct RawAttributeV {
    pub name_index: u16,
    pub length: u32,
    pub payload: Seq<u8>,
}

impl DeepView for RawAttribute {
    type V = RawAttributeV;

    open spec fn deep_view(&self) -> RawAttributeV {
        RawAttributeV {
            name_index: self.name_index,
            length: self.length,
            payload: self.payload@,
        }
    }
}

/// A field or method as framed by the envelope; the two share one layout.
#[derive(Debug, PartialEq, Eq)]
pub struct RawMember {
    pub access_flags: u16,
    pub name_index: u16,
    pub descriptor_index: u16,
    pub attributes: Vec<RawAttribute>,
}

/// Model of `RawMember`.
pub struct RawMemberV {
    pub access_flags: u16,
    pub name_index: u16,
    pub descriptor_index: u16,
    pub attributes: Seq<RawAttributeV>,
}

impl DeepView for RawMember {
    type V = RawMemberV;

    open spec fn deep_view(&self) -> RawMemberV {
        RawMemberV {
            access_flags: self.access_flags,
            name_index: self.name_index,
            descriptor_index: self.descriptor_index,
            attributes: self.attributes.deep_view(),
        }
    }
}

/// The class envelope with every attribute still in raw form.
#[derive(Debug, PartialEq, Eq)]
pub struct RawClass {
    pub magic: u32,
    pub minor_version: u16,
    pub major_version: u16,
    pub constant_pool: Vec<CpEntry>,
    pub access_flags: u16,
    pub this_class: u16,
    pub super_class: u16,
    pub interfaces: Vec<u16>,
    pub fields: Vec<RawMember>,
    pub methods: Vec<RawMember>,
    pub attributes: Vec<RawAttribute>,
}

/// Model of `RawClass`.
pub struct RawClassV {
    pub magic: u32,
    pub minor_version: u16,
    pub major_version: u16,
    pub constant_pool: Seq<CpEntryV>,
    pub access_flags: u16,
    pub this_class: u16,
    pub super_class: u16,
    pub interfaces: Seq<u16>,
    pub fields: Seq<RawMemberV>,
    pub methods: Seq<RawMemberV>,
    pub attributes: Seq<RawAttributeV>,
}

impl DeepView for RawClass {
    type V = RawClassV;

    open spec fn deep_view(&self) -> RawClassV {
        RawClassV {
            magic: self.magic,
            minor_version: self.minor_version,
            major_version: self.major_version,
            constant_pool: self.constant_pool.deep_view(),
            access_flags: self.access_flags,
            this_class: self.this_class,
            super_class: self.super_class,
            interfaces: self.interfaces.deep_view(),
            fields: self.fields.deep_view(),
            methods: self.methods.deep_view(),
            attributes: self.attributes.deep_view(),
        }
    }
}

// ---------------------------------------------------------------------------
// Leaf records (identical in executable and model form)
// ---------------------------------------------------------------------------
/// One entry of a Code attribute's exception table.
#[derive(Debug, PartialEq, Eq)]
pub struct CodeException {
    pub start_pc: u16,
    pub end_pc: u16,
    pub handler_pc: u16,
    pub catch_type: u16,
}

impl DeepView for CodeException {
    type V = CodeException;

    open spec fn deep_view(&self) -> CodeException {
        *self
    }
}

/// One entry of a LineNumberTable attribute.
#[derive(Debug, PartialEq, Eq)]
pub struct LineNumber {
    pub start_pc: u16,
    pub line_number: u16,
}

impl DeepView for LineNumber {
    type V = LineNumber;

    open spec fn deep_view(&self) -> LineNumber {
        *self
    }
}

/// One entry of a LocalVariableTable or LocalVariableTypeTable attribute;
/// the two share one layout, the fourth field holding a descriptor or a
/// signature reference respectively.
#[derive(Debug, PartialEq, Eq)]
pub struct LocalVariableEntry {
    pub start_pc: u16,
    pub length: u16,
    pub name_index: u16,
    pub descriptor_or_signature_index: u16,
    pub index: u16,
}

impl DeepView for LocalVariableEntry {
    type V = LocalVariableEntry;

    open spec fn deep_view(&self) -> LocalVariableEntry {
        *self
    }
}

/// One entry of an InnerClasses attribute. The outer class and name
/// references are nullable: the sentinel index 0 means "absent".
#[derive(Debug, PartialEq, Eq)]
pub struct InnerClass {
    pub inner_class_info_index: u16,
    pub outer_class_info_index: u16,
    pub inner_class_name_index: u16,
    pub inner_class_access_flags: u16,
}

impl DeepView for InnerClass {
    type V = InnerClass;

    open spec fn deep_view(&self) -> InnerClass {
        *self
    }
}

/// A verification type descriptor inside a stack map frame.
#[derive(Debug, PartialEq, Eq)]
pub enum VerificationTypeInfo {
    Top,
    Integer,
    Float,
    Double,
    Long,
    Null,
    UninitializedThis,
    Object { cpool_index: u16 },
    Uninitialized { offset: u16 },
}

impl DeepView for VerificationTypeInfo {
    type V = VerificationTypeInfo;

    open spec fn deep_view(&self) -> VerificationTypeInfo {
        *self
    }
}

// ---------------------------------------------------------------------------
// Stack map frames
// ---------------------------------------------------------------------------
/// A stack map frame, keyed by the `frame_type` byte it was decoded from.
#[derive(Debug, PartialEq, Eq)]
pub enum StackMapFrame {
    SameFrame { frame_type: u8 },
    SameLocals1StackItemFrame { frame_type: u8, stack: VerificationTypeInfo },
    SameLocals1StackItemFrameExtended {
        frame_type: u8,
        offset_delta: u16,
        stack: VerificationTypeInfo,
    },
    ChopFrame { frame_type: u8, offset_delta: u16 },
    SameFrameExtended { frame_type: u8, offset_delta: u16 },
    AppendFrame { frame_type: u8, offset_delta: u16, locals: Vec<VerificationTypeInfo> },
    FullFrame {
        frame_type: u8,
        offset_delta: u16,
        locals: Vec<VerificationTypeInfo>,
        stack: Vec<VerificationTypeInfo>,
    },
}

/// Model of `StackMapFrame`.
pub enum StackMapFrameV {
    SameFrame { frame_type: u8 },
    SameLocals1StackItemFrame { frame_type: u8, stack: VerificationTypeInfo },
    SameLocals1StackItemFrameExtended {
        frame_type: u8,
        offset_delta: u16,
        stack: VerificationTypeInfo,
    },
    ChopFrame { frame_type: u8, offset_delta: u16 },
    SameFrameExtended { frame_type: u8, offset_delta: u16 },
    AppendFrame { frame_type: u8, offset_delta: u16, locals: Seq<VerificationTypeInfo> },
    FullFrame {
        frame_type: u8,
        offset_delta: u16,
        locals: Seq<VerificationTypeInfo>,
        stack: Seq<VerificationTypeInfo>,
    },
}

impl DeepView for StackMapFrame {
    type V = StackMapFrameV;

    open spec fn deep_view(&self) -> StackMapFrameV {
        match self {
            StackMapFrame::SameFrame { frame_type } => StackMapFrameV::SameFrame {
                frame_type: *frame_type,
            },
            StackMapFrame::SameLocals1StackItemFrame { frame_type, stack } =>
                StackMapFrameV::SameLocals1StackItemFrame {
                frame_type: *frame_type,
                stack: *stack,
            },
            StackMapFrame::SameLocals1StackItemFrameExtended { frame_type, offset_delta, stack } =>
                StackMapFrameV::SameLocals1StackItemFrameExtended {
                frame_type: *frame_type,
                offset_delta: *offset_delta,
                stack: *stack,
            },
            StackMapFrame::ChopFrame { frame_type, offset_delta } => StackMapFrameV::ChopFrame {
                frame_type: *frame_type,
                offset_delta: *offset_delta,
            },
            StackMapFrame::SameFrameExtended { frame_type, offset_delta } =>
                StackMapFrameV::SameFrameExtended {
                frame_type: *frame_type,
                offset_delta: *offset_delta,
            },
            StackMapFrame::AppendFrame { frame_type, offset_delta, locals } =>
                StackMapFrameV::AppendFrame {
                frame_type: *frame_type,
                offset_delta: *offset_delta,
                locals: locals.deep_view(),
            },
            StackMapFrame::FullFrame { frame_type, offset_delta, locals, stack } =>
                StackMapFrameV::FullFrame {
                frame_type: *frame_type,
                offset_delta: *offset_delta,
                locals: locals.deep_view(),
                stack: stack.deep_view(),
            },
        }
    }
}

// ---------------------------------------------------------------------------
// Annotations
// ---------------------------------------------------------------------------
/// An annotation: a type reference and its named element values.
#[derive(Debug, PartialEq, Eq)]
pub struct Annotation {
    pub type_index: u16,
    pub element_value_pairs: Vec<AnnotationElementValuePair>,
}

/// One named element value inside an annotation.
#[derive(Debug, PartialEq, Eq)]
pub struct AnnotationElementValuePair {
    pub element_name_index: u16,
    pub value: AnnotationElementValue,
}

/// An element value: its ASCII tag and the tagged payload.
#[derive(Debug, PartialEq, Eq)]
pub struct AnnotationElementValue {
    pub tag: u8,
    pub value: AnnotationValue,
}

/// The payload of an element value, keyed by the tag character.
#[derive(Debug, PartialEq, Eq)]
pub enum AnnotationValue {
    ConstValueIndex { index: u16 },
    EnumConstValue { type_name_index: u16, const_name_index: u16 },
    ClassInfoIndex { index: u16 },
    AnnotationValue { annotation: Box<Annotation> },
    ArrayValue { values: Vec<AnnotationElementValue> },
}

/// Model of `Annotation`.
pub struct AnnotationV {
    pub type_index: u16,
    pub element_value_pairs: Seq<AnnotationElementValuePairV>,
}

/// Model of `AnnotationElementValuePair`.
pub struct AnnotationElementValuePairV {
    pub element_name_index: u16,
    pub value: AnnotationElementValueV,
}

/// Model of `AnnotationElementValue`.
pub struct AnnotationElementValueV {
    pub tag: u8,
    pub value: AnnotationValueV,
}

/// Model of `AnnotationValue`.
pub enum AnnotationValueV {
    ConstValueIndex { index: u16 },
    EnumConstValue { type_name_index: u16, const_name_index: u16 },
    ClassInfoIndex { index: u16 },
    AnnotationValue { annotation: Box<AnnotationV> },
    ArrayValue { values: Seq<AnnotationElementValueV> },
}

impl DeepView for Annotation {
    type V = AnnotationV;

    open spec fn deep_view(&self) -> AnnotationV
        decreases self,
    {
        AnnotationV {
            type_index: self.type_index,
            element_value_pairs: dv_pair_seq(self.element_value_pairs@),
        }
    }
}

/// The models of a run of element value pairs.
pub open spec fn dv_pair_seq(v: Seq<AnnotationElementValuePair>) -> Seq<
    AnnotationElementValuePairV,
>
    decreases v,
{
    if v.len() == 0 {
        Seq::empty()
    } else {
        seq![v[0].deep_view()] + dv_pair_seq(v.drop_first())
    }
}

/// The models of a run of element values.
pub open spec fn dv_ev_seq(v: Seq<AnnotationElementValue>) -> Seq<AnnotationElementValueV>
    decreases v,
{
    if v.len() == 0 {
        Seq::empty()
    } else {
        seq![v[0].deep_view()] + dv_ev_seq(v.drop_first())
    }
}

impl DeepView for AnnotationElementValuePair {
    type V = AnnotationElementValuePairV;

    open spec fn deep_view(&self) -> AnnotationElementValuePairV
        decreases self,
    {
        AnnotationElementValuePairV {
            element_name_index: self.element_name_index,
            value: self.value.deep_view(),
        }
    }
}

impl DeepView for AnnotationElementValue {
    type V = AnnotationElementValueV;

    open spec fn deep_view(&self) -> AnnotationElementValueV
        decreases self,
    {
        AnnotationElementValueV { tag: self.tag, value: self.value.deep_view() }
    }
}

impl DeepView for AnnotationValue {
    type V = AnnotationValueV;

    open spec fn deep_view(&self) -> AnnotationValueV
        decreases self,
    {
        match self {
            AnnotationValue::ConstValueIndex { index } => AnnotationValueV::ConstValueIndex {
                index: *index,
            },
            AnnotationValue::EnumConstValue { type_name_index, const_name_index } =>
                AnnotationValueV::EnumConstValue {
                type_name_index: *type_name_index,
                const_name_index: *const_name_index,
            },
            AnnotationValue::ClassInfoIndex { index } => AnnotationValueV::ClassInfoIndex {
                index: *index,
            },
            AnnotationValue::AnnotationValue { annotation } => AnnotationValueV::AnnotationValue {
                annotation: Box::new((**annotation).deep_view()),
            },
            AnnotationValue::ArrayValue { values } => AnnotationValueV::ArrayValue {
                values: dv_ev_seq(values@),
            },
        }
    }
}

/// The annotations of one method parameter.
#[derive(Debug, PartialEq, Eq)]
pub struct ParameterAnnotation {
    pub annotations: Vec<Annotation>,
}

/// Model of `ParameterAnnotation`.
pub struct ParameterAnnotationV {
    pub annotations: Seq<AnnotationV>,
}

impl DeepView for ParameterAnnotation {
    type V = ParameterAnnotationV;

    open spec fn deep_view(&self) -> ParameterAnnotationV {
        ParameterAnnotationV { annotations: self.annotations.deep_view() }
    }
}

/// One bootstrap method: a MethodHandle reference and its argument
/// references.
#[derive(Debug, PartialEq, Eq)]
pub struct BootstrapMethod {
    pub bootstrap_method_ref: u16,
    pub bootstrap_arguments: Vec<u16>,
}

/// Model of `BootstrapMethod`.
pub struct BootstrapMethodV {
    pub bootstrap_method_ref: u16,
    pub bootstrap_arguments: Seq<u16>,
}

impl DeepView for BootstrapMethod {
    type V = BootstrapMethodV;

    open spec fn deep_view(&self) -> BootstrapMethodV {
        BootstrapMethodV {
            bootstrap_method_ref: self.bootstrap_method_ref,
            bootstrap_arguments: self.bootstrap_arguments.deep_view(),
        }
    }
}

// ---------------------------------------------------------------------------
// Resolved attributes
// ---------------------------------------------------------------------------
/// A resolved attribute: the framing fields and the typed payload. The
/// resolved state is terminal; there is no unresolved variant.
#[derive(Debug, PartialEq, Eq)]
pub struct Attribute {
    pub name_index: u16,
    pub length: u32,
    pub info: AttrInfo,
}

/// The typed payload of an attribute, keyed by its name.
#[derive(Debug, PartialEq, Eq)]
pub enum AttrInfo {
    ConstantValue { constantvalue_index: u16 },
    Code {
        max_stack: u16,
        max_locals: u16,
        code: Vec<u8>,
        exception_table: Vec<CodeException>,
        attributes: Vec<Attribute>,
    },
    StackMapTable { entries: Vec<StackMapFrame> },
    Exceptions { exception_index_table: Vec<u16> },
    InnerClasses { classes: Vec<InnerClass> },
    EnclosingMethod { class_index: u16, method_index: u16 },
    Synthetic,
    Signature { signature_index: u16 },
    SourceFile { sourcefile_index: u16 },
    SourceDebugExtension { debug_extension: Vec<u8> },
    LineNumberTable { line_number_table: Vec<LineNumber> },
    LocalVariableTable { local_variable_table: Vec<LocalVariableEntry> },
    LocalVariableTypeTable { local_variable_table: Vec<LocalVariableEntry> },
    Deprecated,
    RuntimeVisibleAnnotations { annotations: Vec<Annotation> },
    RuntimeInvisibleAnnotations { annotations: Vec<Annotation> },
    RuntimeVisibleParameterAnnotations { parameter_annotations: Vec<ParameterAnnotation> },
    RuntimeInvisibleParameterAnnotations { parameter_annotations: Vec<ParameterAnnotation> },
    AnnotationDefault { default_value: AnnotationElementValue },
    BootstrapMethods { bootstrap_methods: Vec<BootstrapMethod> },
}

/// Model of `Attribute`.
pub struct AttributeV {
    pub name_index: u16,
    pub length: u32,
    pub info: AttrInfoV,
}

/// Model of `AttrInfo`.
pub enum AttrInfoV {
    ConstantValue { constantvalue_index: u16 },
    Code {
        max_stack: u16,
        max_locals: u16,
        code: Seq<u8>,
        exception_table: Seq<CodeException>,
        attributes: Seq<AttributeV>,
    },
    StackMapTable { entries: Seq<StackMapFrameV> },
    Exceptions { exception_index_table: Seq<u16> },
    InnerClasses { classes: Seq<InnerClass> },
    EnclosingMethod { class_index: u16, method_index: u16 },
    Synthetic,
    Signature { signature_index: u16 },
    SourceFile { sourcefile_index: u16 },
    SourceDebugExtension { debug_extension: Seq<u8> },
    LineNumberTable { line_number_table: Seq<LineNumber> },
    LocalVariableTable { local_variable_table: Seq<LocalVariableEntry> },
    LocalVariableTypeTable { local_variable_table: Seq<LocalVariableEntry> },
    Deprecated,
    RuntimeVisibleAnnotations { annotations: Seq<AnnotationV> },
    RuntimeInvisibleAnnotations { annotations: Seq<AnnotationV> },
    RuntimeVisibleParameterAnnotations { parameter_annotations: Seq<ParameterAnnotationV> },
    RuntimeInvisibleParameterAnnotations { parameter_annotations: Seq<ParameterAnnotationV> },
    AnnotationDefault { default_value: AnnotationElementValueV },
    BootstrapMethods { bootstrap_methods: Seq<BootstrapMethodV> },
}

/// The models of a run of resolved attributes.
pub open spec fn dv_attribute_seq(v: Seq<Attribute>) -> Seq<AttributeV>
    decreases v,
{
    if v.len() == 0 {
        Seq::empty()
    } else {
        seq![v[0].deep_view()] + dv_attribute_seq(v.drop_first())
    }
}

impl DeepView for Attribute {
    type V = AttributeV;

    open spec fn deep_view(&self) -> AttributeV
        decreases self,
    {
        AttributeV {
            name_index: self.name_index,
            length: self.length,
            info: self.info.deep_view(),
        }
    }
}

impl DeepView for AttrInfo {
    type V = AttrInfoV;

    open spec fn deep_view(&self) -> AttrInfoV
        decreases self,
    {
        match self {
            AttrInfo::ConstantValue { constantvalue_index } => AttrInfoV::ConstantValue {
                constantvalue_index: *constantvalue_index,
            },
            AttrInfo::Code { max_stack, max_locals, code, exception_table, attributes } =>
                AttrInfoV::Code {
                max_stack: *max_stack,
                max_locals: *max_locals,
                code: code@,
                exception_table: exception_table.deep_view(),
                attributes: dv_attribute_seq(attributes@),
            },
            AttrInfo::StackMapTable { entries } => AttrInfoV::StackMapTable {
                entries: entries.deep_view(),
            },
            AttrInfo::Exceptions { exception_index_table } => AttrInfoV::Exceptions {
                exception_index_table: exception_index_table.deep_view(),
            },
            AttrInfo::InnerClasses { classes } => AttrInfoV::InnerClasses {
                classes: classes.deep_view(),
            },
            AttrInfo::EnclosingMethod { class_index, method_index } => AttrInfoV::EnclosingMethod {
                class_index: *class_index,
                method_index: *method_index,
            },
            AttrInfo::Synthetic => AttrInfoV::Synthetic,
            AttrInfo::Signature { signature_index } => AttrInfoV::Signature {
                signature_index: *signature_index,
            },
            AttrInfo::SourceFile { sourcefile_index } => AttrInfoV::SourceFile {
                sourcefile_index: *sourcefile_index,
            },
            AttrInfo::SourceDebugExtension { debug_extension } => AttrInfoV::SourceDebugExtension {
                debug_extension: debug_extension@,
            },
            AttrInfo::LineNumberTable { line_number_table } => AttrInfoV::LineNumberTable {
                line_number_table: line_number_table.deep_view(),
            },
            AttrInfo::LocalVariableTable { local_variable_table } => AttrInfoV::LocalVariableTable {
                local_variable_table: local_variable_table.deep_view(),
            },
            AttrInfo::LocalVariableTypeTable { local_variable_table } =>
                AttrInfoV::LocalVariableTypeTable {
                local_variable_table: local_variable_table.deep_view(),
            },
            AttrInfo::Deprecated => AttrInfoV::Deprecated,
            AttrInfo::RuntimeVisibleAnnotations { annotations } =>
                AttrInfoV::RuntimeVisibleAnnotations {
                annotations: annotations.deep_view(),
            },
            AttrInfo::RuntimeInvisibleAnnotations { annotations } =>
                AttrInfoV::RuntimeInvisibleAnnotations {
                annotations: annotations.deep_view(),
            },
            AttrInfo::RuntimeVisibleParameterAnnotations { parameter_annotations } =>
                AttrInfoV::RuntimeVisibleParameterAnnotations {
                parameter_annotations: parameter_annotations.deep_view(),
            },
            AttrInfo::RuntimeInvisibleParameterAnnotations { parameter_annotations } =>
                AttrInfoV::RuntimeInvisibleParameterAnnotations {
                parameter_annotations: parameter_annotations.deep_view(),
            },
            AttrInfo::AnnotationDefault { default_value } => AttrInfoV::AnnotationDefault {
                default_value: default_value.deep_view(),
            },
            AttrInfo::BootstrapMethods { bootstrap_methods } => AttrInfoV::BootstrapMethods {
                bootstrap_methods: bootstrap_methods.deep_view(),
            },
        }
    }
}

// ---------------------------------------------------------------------------
// Resolved members and the class file root
// ---------------------------------------------------------------------------
/// A field or method with its attributes resolved; fields and methods share
/// one layout.
#[derive(Debug, PartialEq, Eq)]
pub struct MemberInfo {
    pub access_flags: u16,
    pub name_index: u16,
    pub descriptor_index: u16,
    pub attributes: Vec<Attribute>,
}

/// Model of `MemberInfo`.
pub struct MemberInfoV {
    pub access_flags: u16,
    pub name_index: u16,
    pub descriptor_index: u16,
    pub attributes: Seq<AttributeV>,
}

impl DeepView for MemberInfo {
    type V = MemberInfoV;

    open spec fn deep_view(&self) -> MemberInfoV {
        MemberInfoV {
            access_flags: self.access_flags,
            name_index: self.name_index,
            descriptor_index: self.descriptor_index,
            attributes: self.attributes.deep_view(),
        }
    }
}

/// The parsed class file: the data model root, fully resolved and validated.
#[derive(Debug, PartialEq, Eq)]
pub struct ClassFile {
    pub magic: u32,
    pub minor_version: u16,
    pub major_version: u16,
    pub constant_pool: Vec<CpEntry>,
    pub access_flags: u16,
    pub this_class: u16,
    pub super_class: u16,
    pub interfaces: Vec<u16>,
    pub fields: Vec<MemberInfo>,
    pub methods: Vec<MemberInfo>,
    pub attributes: Vec<Attribute>,
}

/// Model of `ClassFile`.
pub struct ClassFileV {
    pub magic: u32,
    pub minor_version: u16,
    pub major_version: u16,
    pub constant_pool: Seq<CpEntryV>,
    pub access_flags: u16,
    pub this_class: u16,
    pub super_class: u16,
    pub interfaces: Seq<u16>,
    pub fields: Seq<MemberInfoV>,
    pub methods: Seq<MemberInfoV>,
    pub attributes: Seq<AttributeV>,
}

impl DeepView for ClassFile {
    type V = ClassFileV;

    open spec fn deep_view(&self) -> ClassFileV {
        ClassFileV {
            magic: self.magic,
            minor_version: self.minor_version,
            major_version: self.major_version,
            constant_pool: self.constant_pool.deep_view(),
            access_flags: self.access_flags,
            this_class: self.this_class,
            super_class: self.super_class,
            interfaces: self.interfaces.deep_view(),
            fields: self.fields.deep_view(),
            methods: self.methods.deep_view(),
            attributes: self.attributes.deep_view(),
        }
    }
}

// ---------------------------------------------------------------------------
// Well-formedness: every pool reference in the tree lands on an existing
// entry of the kind it promises
// ---------------------------------------------------------------------------
/// A well-formed verification type: an Object descriptor references a Class
/// entry.
pub open spec fn wf_vti(pool: Seq<CpEntryV>, v: VerificationTypeInfo) -> bool {
    match v {
        VerificationTypeInfo::Object { cpool_index } => valid_ref(pool, cpool_index, CpKind::Class),
        _ => true,
    }
}

/// A well-formed stack map frame: every verification type in it is
/// well-formed.
pub open spec fn wf_frame(pool: Seq<CpEntryV>, f: StackMapFrameV) -> bool {
    match f {
        StackMapFrameV::SameFrame { .. } => true,
        StackMapFrameV::SameLocals1StackItemFrame { stack, .. } => wf_vti(pool, stack),
        StackMapFrameV::SameLocals1StackItemFrameExtended { stack, .. } => wf_vti(pool, stack),
        StackMapFrameV::ChopFrame { .. } => true,
        StackMapFrameV::SameFrameExtended { .. } => true,
        StackMapFrameV::AppendFrame { locals, .. } => forall|i: int|
            0 <= i < locals.len() ==> wf_vti(pool, #[trigger] locals[i]),
        StackMapFrameV::FullFrame { locals, stack, .. } => (forall|i: int|
            0 <= i < locals.len() ==> wf_vti(pool, #[trigger] locals[i])) && (forall|i: int|
            0 <= i < stack.len() ==> wf_vti(pool, #[trigger] stack[i])),
    }
}

/// A well-formed annotation: its type reference is a Utf8 entry and every
/// element value pair is well-formed.
pub open spec fn wf_annotation(pool: Seq<CpEntryV>, a: AnnotationV) -> bool
    decreases a,
{
    valid_ref(pool, a.type_index, CpKind::Utf8) && (forall|i: int|
        0 <= i < a.element_value_pairs.len() ==> wf_ev_pair(
            pool,
            #[trigger] a.element_value_pairs[i],
        ))
}

/// A well-formed element value pair: the name references a Utf8 entry and
/// the value is well-formed.
pub open spec fn wf_ev_pair(pool: Seq<CpEntryV>, p: AnnotationElementValuePairV) -> bool
    decreases p,
{
    valid_ref(pool, p.element_name_index, CpKind::Utf8) && wf_ev(pool, p.value)
}

/// A well-formed element value.
pub open spec fn wf_ev(pool: Seq<CpEntryV>, v: AnnotationElementValueV) -> bool
    decreases v,
{
    wf_ann_value(pool, v.value)
}

/// A well-formed element value payload: constant indices are in bounds,
/// enum and class references land on Utf8 entries, and nested annotations
/// and arrays are well-formed throughout.
pub open spec fn wf_ann_value(pool: Seq<CpEntryV>, v: AnnotationValueV) -> bool
    decreases v,
{
    match v {
        AnnotationValueV::ConstValueIndex { index } => valid_any_ref(pool, index),
        AnnotationValueV::EnumConstValue { type_name_index, const_name_index } => valid_ref(
            pool,
            type_name_index,
            CpKind::Utf8,
        ) && valid_ref(pool, const_name_index, CpKind::Utf8),
        AnnotationValueV::ClassInfoIndex { index } => valid_ref(pool, index, CpKind::Utf8),
        AnnotationValueV::AnnotationValue { annotation } => wf_annotation(pool, *annotation),
        AnnotationValueV::ArrayValue { values } => forall|i: int|
            0 <= i < values.len() ==> wf_ev(pool, #[trigger] values[i]),
    }
}

/// A well-formed typed attribute payload.
pub open spec fn wf_attr_info(pool: Seq<CpEntryV>, info: AttrInfoV) -> bool
    decreases info,
{
    match info {
        AttrInfoV::ConstantValue { constantvalue_index } => valid_any_ref(
            pool,
            constantvalue_index,
        ),
        AttrInfoV::Code { attributes, .. } => forall|i: int|
            0 <= i < attributes.len() ==> wf_attribute(pool, #[trigger] attributes[i]),
        AttrInfoV::StackMapTable { entries } => forall|i: int|
            0 <= i < entries.len() ==> wf_frame(pool, #[trigger] entries[i]),
        AttrInfoV::Exceptions { exception_index_table } => forall|i: int|
            0 <= i < exception_index_table.len() ==> valid_ref(
                pool,
                #[trigger] exception_index_table[i],
                CpKind::Class,
            ),
        AttrInfoV::InnerClasses { classes } => forall|i: int|
            0 <= i < classes.len() ==> wf_inner_class(pool, #[trigger] classes[i]),
        AttrInfoV::EnclosingMethod { class_index, method_index } => valid_ref(
            pool,
            class_index,
            CpKind::Class,
        ) && valid_ref(pool, method_index, CpKind::NameAndType),
        AttrInfoV::Synthetic => true,
        AttrInfoV::Signature { signature_index } => valid_ref(pool, signature_index, CpKind::Utf8),
        AttrInfoV::SourceFile { sourcefile_index } => valid_ref(
            pool,
            sourcefile_index,
            CpKind::Utf8,
        ),
        AttrInfoV::SourceDebugExtension { .. } => true,
        AttrInfoV::LineNumberTable { .. } => true,
        AttrInfoV::LocalVariableTable { local_variable_table } => forall|i: int|
            0 <= i < local_variable_table.len() ==> wf_local_variable(
                pool,
                #[trigger] local_variable_table[i],
            ),
        AttrInfoV::LocalVariableTypeTable { local_variable_table } => forall|i: int|
            0 <= i < local_variable_table.len() ==> wf_local_variable(
                pool,
                #[trigger] local_variable_table[i],
            ),
        AttrInfoV::Deprecated => true,
        AttrInfoV::RuntimeVisibleAnnotations { annotations } => forall|i: int|
            0 <= i < annotations.len() ==> wf_annotation(pool, #[trigger] annotations[i]),
        AttrInfoV::RuntimeInvisibleAnnotations { annotations } => forall|i: int|
            0 <= i < annotations.len() ==> wf_annotation(pool, #[trigger] annotations[i]),
        AttrInfoV::RuntimeVisibleParameterAnnotations { parameter_annotations } => forall|i: int|
            0 <= i < parameter_annotations.len() ==> wf_parameter_annotation(
                pool,
                #[trigger] parameter_annotations[i],
            ),
        AttrInfoV::RuntimeInvisibleParameterAnnotations { parameter_annotations } => forall|i: int|
            0 <= i < parameter_annotations.len() ==> wf_parameter_annotation(
                pool,
                #[trigger] parameter_annotations[i],
            ),
        AttrInfoV::AnnotationDefault { default_value } => wf_ev(pool, default_value),
        AttrInfoV::BootstrapMethods { bootstrap_methods } => forall|i: int|
            0 <= i < bootstrap_methods.len() ==> wf_bootstrap_method(
                pool,
                #[trigger] bootstrap_methods[i],
            ),
    }
}

/// A well-formed InnerClasses entry; the outer class and name references may
/// be the sentinel 0.
pub open spec fn wf_inner_class(pool: Seq<CpEntryV>, c: InnerClass) -> bool {
    valid_ref(pool, c.inner_class_info_index, CpKind::Class) && valid_opt_ref(
        pool,
        c.outer_class_info_index,
        CpKind::Class,
    ) && valid_opt_ref(pool, c.inner_class_name_index, CpKind::Utf8)
}

/// A well-formed local variable entry: name and descriptor-or-signature
/// reference Utf8 entries.
pub open spec fn wf_local_variable(pool: Seq<CpEntryV>, v: LocalVariableEntry) -> bool {
    valid_ref(pool, v.name_index, CpKind::Utf8) && valid_ref(
        pool,
        v.descriptor_or_signature_index,
        CpKind::Utf8,
    )
}

/// Well-formed parameter annotations.
pub open spec fn wf_parameter_annotation(pool: Seq<CpEntryV>, p: ParameterAnnotationV) -> bool
    decreases p,
{
    forall|i: int| 0 <= i < p.annotations.len() ==> wf_annotation(pool, #[trigger] p.annotations[i])
}

/// A well-formed bootstrap method: the method reference lands on a
/// MethodHandle entry and each argument index is in bounds.
pub open spec fn wf_bootstrap_method(pool: Seq<CpEntryV>, b: BootstrapMethodV) -> bool {
    valid_ref(pool, b.bootstrap_method_ref, CpKind::MethodHandle) && (forall|i: int|
        0 <= i < b.bootstrap_arguments.len() ==> valid_any_ref(
            pool,
            #[trigger] b.bootstrap_arguments[i],
        ))
}

/// A well-formed resolved attribute: its name references a Utf8 entry and
/// its payload is well-formed.
pub open spec fn wf_attribute(pool: Seq<CpEntryV>, a: AttributeV) -> bool
    decreases a,
{
    valid_ref(pool, a.name_index, CpKind::Utf8) && wf_attr_info(pool, a.info)
}

/// A well-formed raw attribute: its name references a Utf8 entry and the
/// opaque payload has exactly the declared length.
pub open spec fn wf_raw_attribute(pool: Seq<CpEntryV>, a: RawAttributeV) -> bool {
    valid_ref(pool, a.name_index, CpKind::Utf8) && a.payload.len() == a.length
}

/// A well-formed raw member: name and descriptor reference Utf8 entries and
/// every raw attribute is well-formed.
pub open spec fn wf_raw_member(pool: Seq<CpEntryV>, m: RawMemberV) -> bool {
    valid_ref(pool, m.name_index, CpKind::Utf8) && valid_ref(pool, m.descriptor_index, CpKind::Utf8)
        && (forall|i: int|
        0 <= i < m.attributes.len() ==> wf_raw_attribute(pool, #[trigger] m.attributes[i]))
}

/// A well-formed member: name and descriptor reference Utf8 entries and
/// every attribute is well-formed.
pub open spec fn wf_member(pool: Seq<CpEntryV>, m: MemberInfoV) -> bool {
    valid_ref(pool, m.name_index, CpKind::Utf8) && valid_ref(pool, m.descriptor_index, CpKind::Utf8)
        && (forall|i: int|
        0 <= i < m.attributes.len() ==> wf_attribute(pool, #[trigger] m.attributes[i]))
}

/// A well-formed class file: the magic is right, the pool's own references
/// are valid, and every pool reference reachable from the tree lands on an
/// entry of the promised kind.
pub open spec fn wf_class_file(c: ClassFileV) -> bool {
    let pool = c.constant_pool;
    c.magic == 0xCAFEBABEu32 && wf_pool(pool) && valid_ref(pool, c.this_class, CpKind::Class)
        && valid_ref(pool, c.super_class, CpKind::Class) && (forall|i: int|
        0 <= i < c.interfaces.len() ==> valid_ref(pool, #[trigger] c.interfaces[i], CpKind::Class))
        && (forall|i: int| 0 <= i < c.fields.len() ==> wf_member(pool, #[trigger] c.fields[i])) && (
    forall|i: int| 0 <= i < c.methods.len() ==> wf_member(pool, #[trigger] c.methods[i])) && (
    forall|i: int| 0 <= i < c.attributes.len() ==> wf_attribute(pool, #[trigger] c.attributes[i]))
}

} // verus!
