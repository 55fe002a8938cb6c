//! The attribute words of the metadata tables, taken apart into names.
use vstd::prelude::*;
use crate::error::Error;
use crate::utils::le_u32_at;
use crate::Result;

verus! {

/// The attributes among the first `n` entries of `bits` whose bit is set in
/// `value`, in the order of the entries.
pub open spec fn spec_select_flags<T>(value: usize, bits: Seq<(usize, T)>, n: int) -> Seq<T>
    decreases n,
{
    if n <= 0 {
        Seq::empty()
    } else if value & bits[n - 1].0 != 0 {
        spec_select_flags(value, bits, n - 1).push(bits[n - 1].1)
    } else {
        spec_select_flags(value, bits, n - 1)
    }
}

/// Picks the attributes of `bits` whose bit is set in `value`.
pub fn select_flags<T: Copy>(value: usize, bits: &Vec<(usize, T)>) -> (r: Vec<T>)
    ensures
        r@ == spec_select_flags(value, bits@, bits@.len() as int),
{
    let mut res: Vec<T> = Vec::new();
    let mut i: usize = 0;
    while i < bits.len()
        invariant
            i <= bits.len(),
            res@ == spec_select_flags(value, bits@, i as int),
        decreases bits.len() - i,
    {
        if value & bits[i].0 != 0 {
            res.push(bits[i].1);
        }
        i = i + 1;
    }
    res
}

/// Who may see a type.
#[derive(Debug, Clone, Copy, PartialEq, Eq, Structural)]
pub enum CorTypeVisibility {
    NotPublic,
    Public,
    NestedPublic,
    NestedPrivate,
    NestedFamily,
    NestedAssembly,
    NestedFamANDAssem,
    NestedFamORAssem,
}

impl CorTypeVisibility {
    /// The choice that the bits `7` of `val` make.
    pub open spec fn spec_new(val: usize) -> Self {
        match val & 7 {
            1 => Self::Public,
            2 => Self::NestedPublic,
            3 => Self::NestedPrivate,
            4 => Self::NestedFamily,
            5 => Self::NestedAssembly,
            6 => Self::NestedFamANDAssem,
            7 => Self::NestedFamORAssem,
            _ => Self::NotPublic,
        }
    }

    /// Decodes the bits `7` of `val`.
    pub fn new(val: usize) -> (r: Self)
        ensures
            r == Self::spec_new(val),
    {
        match val & 7 {
            1 => Self::Public,
            2 => Self::NestedPublic,
            3 => Self::NestedPrivate,
            4 => Self::NestedFamily,
            5 => Self::NestedAssembly,
            6 => Self::NestedFamANDAssem,
            7 => Self::NestedFamORAssem,
            _ => Self::NotPublic,
        }
    }
}

impl Default for CorTypeVisibility {
    fn default() -> (r: Self)
        ensures
            r == Self::NotPublic,
    {
        Self::NotPublic
    }
}

/// How the fields of a type are laid out.
#[derive(Debug, Clone, Copy, PartialEq, Eq, Structural)]
pub enum CorTypeLayout {
    AutoLayout,
    SequentialLayout,
    ExplicitLayout,
}

impl CorTypeLayout {
    /// The choice that the bits `0x18` of `val` make.
    pub open spec fn spec_new(val: usize) -> Self {
        match val & 0x18 {
            8 => Self::SequentialLayout,
            0x10 => Self::ExplicitLayout,
            _ => Self::AutoLayout,
        }
    }

    /// Decodes the bits `0x18` of `val`.
    pub fn new(val: usize) -> (r: Self)
        ensures
            r == Self::spec_new(val),
    {
        match val & 0x18 {
            8 => Self::SequentialLayout,
            0x10 => Self::ExplicitLayout,
            _ => Self::AutoLayout,
        }
    }
}

impl Default for CorTypeLayout {
    fn default() -> (r: Self)
        ensures
            r == Self::AutoLayout,
    {
        Self::AutoLayout
    }
}

/// Whether a type is a class or an interface.
#[derive(Debug, Clone, Copy, PartialEq, Eq, Structural)]
pub enum CorTypeSemantics {
    Class,
    Interface,
}

impl CorTypeSemantics {
    /// The choice that the bits `0x20` of `val` make.
    pub open spec fn spec_new(val: usize) -> Self {
        match val & 0x20 {
            0x20 => Self::Interface,
            _ => Self::Class,
        }
    }

    /// Decodes the bits `0x20` of `val`.
    pub fn new(val: usize) -> (r: Self)
        ensures
            r == Self::spec_new(val),
    {
        match val & 0x20 {
            0x20 => Self::Interface,
            _ => Self::Class,
        }
    }
}

impl Default for CorTypeSemantics {
    fn default() -> (r: Self)
        ensures
            r == Self::Class,
    {
        Self::Class
    }
}

/// The single-bit attributes of a type.
#[derive(Debug, Clone, Copy, PartialEq, Eq, Structural)]
pub enum CorTypeAttrFlags {
    Abstract,
    Sealed,
    SpecialName,
    RTSpecialName,
    Import,
    Serializable,
    WindowsRuntime,
    HasSecurity,
    BeforeFieldInit,
    Forwarder,
}

impl CorTypeAttrFlags {
    /// The single bits and the attributes they stand for, in the order
    /// in which they are looked at.
    pub open spec fn spec_bits() -> Seq<(usize, Self)> {
        seq![
            (0x80usize, Self::Abstract),
            (0x100usize, Self::Sealed),
            (0x400usize, Self::SpecialName),
            (0x800usize, Self::RTSpecialName),
            (0x1000usize, Self::Import),
            (0x2000usize, Self::Serializable),
            (0x4000usize, Self::WindowsRuntime),
            (0x40000usize, Self::HasSecurity),
            (0x100000usize, Self::BeforeFieldInit),
            (0x200000usize, Self::Forwarder),
        ]
    }

    /// The single bits and the attributes they stand for.
    pub fn bits() -> (r: Vec<(usize, Self)>)
        ensures
            r@ == Self::spec_bits(),
    {
        let mut bits: Vec<(usize, Self)> = Vec::new();
        bits.push((0x80, Self::Abstract));
        bits.push((0x100, Self::Sealed));
        bits.push((0x400, Self::SpecialName));
        bits.push((0x800, Self::RTSpecialName));
        bits.push((0x1000, Self::Import));
        bits.push((0x2000, Self::Serializable));
        bits.push((0x4000, Self::WindowsRuntime));
        bits.push((0x40000, Self::HasSecurity));
        bits.push((0x100000, Self::BeforeFieldInit));
        bits.push((0x200000, Self::Forwarder));
        assert(bits@ =~= Self::spec_bits());
        bits
    }

    /// The attributes that `value` stands for, in the order in which its
    /// bits are looked at.
    pub open spec fn spec_new(value: usize) -> Seq<Self> {
        spec_select_flags(value, Self::spec_bits(), Self::spec_bits().len() as int)
    }

    /// Decodes the attributes that `value` stands for.
    pub fn new(value: usize) -> (r: Vec<Self>)
        ensures
            r@ == Self::spec_new(value),
    {
        let bits = Self::bits();
        select_flags(value, &bits)
    }
}

/// How strings are marshalled for a type.
#[derive(Debug, Clone, Copy, PartialEq, Eq, Structural)]
pub enum CorTypeStringFormat {
    AnsiClass,
    UnicodeClass,
    AutoClass,
    CustomFormatClass,
}

impl CorTypeStringFormat {
    /// The choice that the bits `0x30000` of `val` make.
    pub open spec fn spec_new(val: usize) -> Self {
        match val & 0x30000 {
            0x10000 => Self::UnicodeClass,
            0x20000 => Self::AutoClass,
            0x30000 => Self::CustomFormatClass,
            _ => Self::AnsiClass,
        }
    }

    /// Decodes the bits `0x30000` of `val`.
    pub fn new(val: usize) -> (r: Self)
        ensures
            r == Self::spec_new(val),
    {
        match val & 0x30000 {
            0x10000 => Self::UnicodeClass,
            0x20000 => Self::AutoClass,
            0x30000 => Self::CustomFormatClass,
            _ => Self::AnsiClass,
        }
    }
}

impl Default for CorTypeStringFormat {
    fn default() -> (r: Self)
        ensures
            r == Self::AnsiClass,
    {
        Self::AnsiClass
    }
}

/// The kind of code of a method.
#[derive(Debug, Clone, Copy, PartialEq, Eq, Structural)]
pub enum CorMethodCodeType {
    IL,
    Native,
    OPTIL,
    Runtime,
}

impl CorMethodCodeType {
    /// The choice that the bits `3` of `val` make.
    pub open spec fn spec_new(val: usize) -> Self {
        match val & 3 {
            1 => Self::Native,
            2 => Self::OPTIL,
            3 => Self::Runtime,
            _ => Self::IL,
        }
    }

    /// Decodes the bits `3` of `val`.
    pub fn new(val: usize) -> (r: Self)
        ensures
            r == Self::spec_new(val),
    {
        match val & 3 {
            1 => Self::Native,
            2 => Self::OPTIL,
            3 => Self::Runtime,
            _ => Self::IL,
        }
    }
}

/// Whether a method is managed.
#[derive(Debug, Clone, Copy, PartialEq, Eq, Structural)]
pub enum CorMethodManaged {
    Unmanaged,
    Managed,
}

impl CorMethodManaged {
    /// The choice that the bits `4` of `val` make.
    pub open spec fn spec_new(val: usize) -> Self {
        match val & 4 {
            4 => Self::Unmanaged,
            _ => Self::Managed,
        }
    }

    /// Decodes the bits `4` of `val`.
    pub fn new(val: usize) -> (r: Self)
        ensures
            r == Self::spec_new(val),
    {
        match val & 4 {
            4 => Self::Unmanaged,
            _ => Self::Managed,
        }
    }
}

/// The implementation attributes of a method.
#[derive(Debug, Clone, Copy, PartialEq, Eq, Structural)]
pub enum ClrMethodImpl {
    MethodCodeType(CorMethodCodeType),
    MethodManaged(CorMethodManaged),
    ForwardRef,
    PreserveSig,
    InternalCall,
    Synchronized,
    NoInlining,
    /// The largest value of the attributes, a bound for range checks: no
    /// bit stands for it, and no decoding gives it.
    MaxMethodImplVal,
}

impl ClrMethodImpl {
    /// The single bits and the attributes they stand for, in the order
    /// in which they are looked at.
    pub open spec fn spec_bits() -> Seq<(usize, Self)> {
        seq![
            (0x10usize, Self::ForwardRef),
            (0x80usize, Self::PreserveSig),
            (0x1000usize, Self::InternalCall),
            (0x20usize, Self::Synchronized),
            (8usize, Self::NoInlining),
        ]
    }

    /// The single bits and the attributes they stand for.
    pub fn bits() -> (r: Vec<(usize, Self)>)
        ensures
            r@ == Self::spec_bits(),
    {
        let mut bits: Vec<(usize, Self)> = Vec::new();
        bits.push((0x10, Self::ForwardRef));
        bits.push((0x80, Self::PreserveSig));
        bits.push((0x1000, Self::InternalCall));
        bits.push((0x20, Self::Synchronized));
        bits.push((8, Self::NoInlining));
        assert(bits@ =~= Self::spec_bits());
        bits
    }

    /// The attributes that `value` stands for, in the order in which its
    /// bits are looked at.
    pub open spec fn spec_new(value: usize) -> Seq<Self> {
        spec_select_flags(value, Self::spec_bits(), Self::spec_bits().len() as int)
        + seq![Self::MethodCodeType(CorMethodCodeType::spec_new(value))]
        + seq![Self::MethodManaged(CorMethodManaged::spec_new(value))]
    }

    /// Decodes the attributes that `value` stands for.
    pub fn new(value: usize) -> (r: Vec<Self>)
        ensures
            r@ == Self::spec_new(value),
    {
        let mut res: Vec<Self> = Vec::new();
        let bits = Self::bits();
        let mut flags = select_flags(value, &bits);
        res.append(&mut flags);
        res.push(Self::MethodCodeType(CorMethodCodeType::new(value)));
        res.push(Self::MethodManaged(CorMethodManaged::new(value)));
        assert(res@ =~= Self::spec_new(value));
        res
    }
}

/// The attributes of a type, taken apart.
#[derive(Debug, Clone)]
pub struct ClrTypeAttr {
    pub visibility: CorTypeVisibility,
    pub layout: CorTypeLayout,
    pub class_semantics: CorTypeSemantics,
    pub flags: Vec<CorTypeAttrFlags>,
    pub string_format: CorTypeStringFormat,
}

impl ClrTypeAttr {
    /// Whether the parts are those of the attribute word `val`.
    pub open spec fn decodes(&self, val: usize) -> bool {
        &&& self.visibility == CorTypeVisibility::spec_new(val)
        &&& self.layout == CorTypeLayout::spec_new(val)
        &&& self.class_semantics == CorTypeSemantics::spec_new(val)
        &&& self.flags@ == CorTypeAttrFlags::spec_new(val)
        &&& self.string_format == CorTypeStringFormat::spec_new(val)
    }

    /// The attributes of the word `val`.
    pub fn from_value(val: usize) -> (r: Self)
        ensures
            r.decodes(val),
    {
        ClrTypeAttr {
            visibility: CorTypeVisibility::new(val),
            layout: CorTypeLayout::new(val),
            class_semantics: CorTypeSemantics::new(val),
            flags: CorTypeAttrFlags::new(val),
            string_format: CorTypeStringFormat::new(val),
        }
    }

    /// Takes the attributes from a field of four bytes, the lowest first.
    ///
    /// A field of another size is refused, and the attributes stay as
    /// they were.
    pub fn set(&mut self, data: &[u8]) -> (r: Result<()>)
        ensures
            data@.len() == 4 ==> r is Ok && final(self).decodes(le_u32_at(data@, 0) as usize),
            data@.len() != 4 ==> r == Err::<(), Error>(Error::FormatError(data@.len() as usize, 4))
                && *final(self) == *old(self),
    {
        if data.len() != 4 {
            return Err(Error::FormatError(data.len(), 4));
        }
        let val = crate::utils::read_usize(data)?;
        self.visibility = CorTypeVisibility::new(val);
        self.layout = CorTypeLayout::new(val);
        self.class_semantics = CorTypeSemantics::new(val);
        self.flags = CorTypeAttrFlags::new(val);
        self.string_format = CorTypeStringFormat::new(val);
        Ok(())
    }
}

impl Default for ClrTypeAttr {
    fn default() -> (r: Self)
        ensures
            r.decodes(0),
    {
        ClrTypeAttr::from_value(0)
    }
}

/// Who may access a field.
#[derive(Debug, Clone, Copy, PartialEq, Eq, Structural)]
pub enum CorFieldAccess {
    PrivateScope,
    Private,
    FamANDAssem,
    Assembly,
    Family,
    FamORAssem,
    Public,
    Unknown1,
}

impl CorFieldAccess {
    /// The choice that the bits `7` of `val` make.
    pub open spec fn spec_new(val: usize) -> Self {
        match val & 7 {
            1 => Self::Private,
            2 => Self::FamANDAssem,
            3 => Self::Assembly,
            4 => Self::Family,
            5 => Self::FamORAssem,
            6 => Self::Public,
            7 => Self::Unknown1,
            _ => Self::PrivateScope,
        }
    }

    /// Decodes the bits `7` of `val`.
    pub fn new(val: usize) -> (r: Self)
        ensures
            r == Self::spec_new(val),
    {
        match val & 7 {
            1 => Self::Private,
            2 => Self::FamANDAssem,
            3 => Self::Assembly,
            4 => Self::Family,
            5 => Self::FamORAssem,
            6 => Self::Public,
            7 => Self::Unknown1,
            _ => Self::PrivateScope,
        }
    }
}

/// The attributes of a field.
#[derive(Debug, Clone, Copy, PartialEq, Eq, Structural)]
pub enum ClrFieldAttr {
    FieldAccess(CorFieldAccess),
    Static,
    InitOnly,
    Literal,
    NotSerialized,
    SpecialName,
    PinvokeImpl,
    RTSpecialName,
    HasFieldMarshal,
    HasDefault,
    HasFieldRVA,
}

impl ClrFieldAttr {
    /// The single bits and the attributes they stand for, in the order
    /// in which they are looked at.
    pub open spec fn spec_bits() -> Seq<(usize, Self)> {
        seq![
            (0x10usize, Self::Static),
            (0x20usize, Self::InitOnly),
            (0x40usize, Self::Literal),
            (0x80usize, Self::NotSerialized),
            (0x200usize, Self::SpecialName),
            (0x2000usize, Self::PinvokeImpl),
            (0x100usize, Self::HasFieldRVA),
            (0x400usize, Self::RTSpecialName),
            (0x1000usize, Self::HasFieldMarshal),
            (0x8000usize, Self::HasDefault),
        ]
    }

    /// The single bits and the attributes they stand for.
    pub fn bits() -> (r: Vec<(usize, Self)>)
        ensures
            r@ == Self::spec_bits(),
    {
        let mut bits: Vec<(usize, Self)> = Vec::new();
        bits.push((0x10, Self::Static));
        bits.push((0x20, Self::InitOnly));
        bits.push((0x40, Self::Literal));
        bits.push((0x80, Self::NotSerialized));
        bits.push((0x200, Self::SpecialName));
        bits.push((0x2000, Self::PinvokeImpl));
        bits.push((0x100, Self::HasFieldRVA));
        bits.push((0x400, Self::RTSpecialName));
        bits.push((0x1000, Self::HasFieldMarshal));
        bits.push((0x8000, Self::HasDefault));
        assert(bits@ =~= Self::spec_bits());
        bits
    }

    /// The attributes that `value` stands for, in the order in which its
    /// bits are looked at.
    pub open spec fn spec_new(value: usize) -> Seq<Self> {
        seq![Self::FieldAccess(CorFieldAccess::spec_new(value))]
        + spec_select_flags(value, Self::spec_bits(), Self::spec_bits().len() as int)
    }

    /// Decodes the attributes that `value` stands for.
    pub fn new(value: usize) -> (r: Vec<Self>)
        ensures
            r@ == Self::spec_new(value),
    {
        let mut res: Vec<Self> = Vec::new();
        res.push(Self::FieldAccess(CorFieldAccess::new(value)));
        let bits = Self::bits();
        let mut flags = select_flags(value, &bits);
        res.append(&mut flags);
        assert(res@ =~= Self::spec_new(value));
        res
    }
}

/// Who may access a method.
#[derive(Debug, Clone, Copy, PartialEq, Eq, Structural)]
pub enum CorMethodMemberAccess {
    PrivateScope,
    Private,
    FamANDAssem,
    Assem,
    Family,
    FamORAssem,
    Public,
    Unknown1,
}

impl CorMethodMemberAccess {
    /// The choice that the bits `7` of `val` make.
    pub open spec fn spec_new(val: usize) -> Self {
        match val & 7 {
            1 => Self::Private,
            2 => Self::FamANDAssem,
            3 => Self::Assem,
            4 => Self::Family,
            5 => Self::FamORAssem,
            6 => Self::Public,
            7 => Self::Unknown1,
            _ => Self::PrivateScope,
        }
    }

    /// Decodes the bits `7` of `val`.
    pub fn new(val: usize) -> (r: Self)
        ensures
            r == Self::spec_new(val),
    {
        match val & 7 {
            1 => Self::Private,
            2 => Self::FamANDAssem,
            3 => Self::Assem,
            4 => Self::Family,
            5 => Self::FamORAssem,
            6 => Self::Public,
            7 => Self::Unknown1,
            _ => Self::PrivateScope,
        }
    }
}

/// The single-bit attributes of a method.
#[derive(Debug, Clone, Copy, PartialEq, Eq, Structural)]
pub enum CorMethodAttrFlag {
    Static,
    Final,
    Virtual,
    HideBySig,
    CheckAccessOnOverride,
    Abstract,
    SpecialName,
    PinvokeImpl,
    UnmanagedExport,
    RTSpecialName,
    HasSecurity,
    RequireSecObject,
}

impl CorMethodAttrFlag {
    /// The single bits and the attributes they stand for, in the order
    /// in which they are looked at.
    pub open spec fn spec_bits() -> Seq<(usize, Self)> {
        seq![
            (0x10usize, Self::Static),
            (0x20usize, Self::Final),
            (0x40usize, Self::Virtual),
            (0x80usize, Self::HideBySig),
            (0x200usize, Self::CheckAccessOnOverride),
            (0x400usize, Self::Abstract),
            (0x800usize, Self::SpecialName),
            (0x2000usize, Self::PinvokeImpl),
            (8usize, Self::UnmanagedExport),
            (0x1000usize, Self::RTSpecialName),
            (0x4000usize, Self::HasSecurity),
            (0x8000usize, Self::RequireSecObject),
        ]
    }

    /// The single bits and the attributes they stand for.
    pub fn bits() -> (r: Vec<(usize, Self)>)
        ensures
            r@ == Self::spec_bits(),
    {
        let mut bits: Vec<(usize, Self)> = Vec::new();
        bits.push((0x10, Self::Static));
        bits.push((0x20, Self::Final));
        bits.push((0x40, Self::Virtual));
        bits.push((0x80, Self::HideBySig));
        bits.push((0x200, Self::CheckAccessOnOverride));
        bits.push((0x400, Self::Abstract));
        bits.push((0x800, Self::SpecialName));
        bits.push((0x2000, Self::PinvokeImpl));
        bits.push((8, Self::UnmanagedExport));
        bits.push((0x1000, Self::RTSpecialName));
        bits.push((0x4000, Self::HasSecurity));
        bits.push((0x8000, Self::RequireSecObject));
        assert(bits@ =~= Self::spec_bits());
        bits
    }

    /// The attributes that `value` stands for, in the order in which its
    /// bits are looked at.
    pub open spec fn spec_new(value: usize) -> Seq<Self> {
        spec_select_flags(value, Self::spec_bits(), Self::spec_bits().len() as int)
    }

    /// Decodes the attributes that `value` stands for.
    pub fn new(value: usize) -> (r: Vec<Self>)
        ensures
            r@ == Self::spec_new(value),
    {
        let bits = Self::bits();
        select_flags(value, &bits)
    }
}

/// Whether a method takes a new slot of the virtual table.
#[derive(Debug, Clone, Copy, PartialEq, Eq, Structural)]
pub enum CorMethodVtableLayout {
    ReuseSlot,
    NewSlot,
}

impl CorMethodVtableLayout {
    /// The choice that the bits `0x100` of `val` make.
    pub open spec fn spec_new(val: usize) -> Self {
        match val & 0x100 {
            0x100 => Self::NewSlot,
            _ => Self::ReuseSlot,
        }
    }

    /// Decodes the bits `0x100` of `val`.
    pub fn new(val: usize) -> (r: Self)
        ensures
            r == Self::spec_new(val),
    {
        match val & 0x100 {
            0x100 => Self::NewSlot,
            _ => Self::ReuseSlot,
        }
    }
}

/// The attributes of a method.
#[derive(Debug, Clone, Copy, PartialEq, Eq, Structural)]
pub enum ClrMethodAttr {
    MemberAccess(CorMethodMemberAccess),
    AttrFlag(CorMethodAttrFlag),
    VtableLayout(CorMethodVtableLayout),
}

impl ClrMethodAttr {
    /// The attributes that `value` stands for: the access, then the
    /// single-bit attributes, then the layout of the virtual table.
    pub open spec fn spec_new(value: usize) -> Seq<Self> {
        seq![Self::MemberAccess(CorMethodMemberAccess::spec_new(value))]
            + CorMethodAttrFlag::spec_new(value).map_values(|f: CorMethodAttrFlag| Self::AttrFlag(f))
            + seq![Self::VtableLayout(CorMethodVtableLayout::spec_new(value))]
    }

    /// Decodes the attributes that `value` stands for.
    pub fn new(value: usize) -> (r: Vec<Self>)
        ensures
            r@ == Self::spec_new(value),
    {
        let mut res: Vec<Self> = Vec::new();
        res.push(Self::MemberAccess(CorMethodMemberAccess::new(value)));
        let flags = CorMethodAttrFlag::new(value);
        let mut i: usize = 0;
        while i < flags.len()
            invariant
                i <= flags.len(),
                flags@ == CorMethodAttrFlag::spec_new(value),
                res@.len() == i + 1,
                res@[0] == Self::MemberAccess(CorMethodMemberAccess::spec_new(value)),
                forall|j: int| 0 <= j < i ==> res@[j + 1] == Self::AttrFlag(flags@[j]),
            decreases flags.len() - i,
        {
            res.push(Self::AttrFlag(flags[i]));
            i = i + 1;
        }
        res.push(Self::VtableLayout(CorMethodVtableLayout::new(value)));
        assert(res@ =~= Self::spec_new(value));
        res
    }
}

/// The attributes of a parameter.
#[derive(Debug, Clone, Copy, PartialEq, Eq, Structural)]
pub enum ClrParamAttr {
    In,
    Out,
    Optional,
    HasDefault,
    HasFieldMarshal,
}

impl ClrParamAttr {
    /// The single bits and the attributes they stand for, in the order
    /// in which they are looked at.
    pub open spec fn spec_bits() -> Seq<(usize, Self)> {
        seq![
            (1usize, Self::In),
            (2usize, Self::Out),
            (0x10usize, Self::Optional),
            (0x1000usize, Self::HasDefault),
            (0x2000usize, Self::HasFieldMarshal),
        ]
    }

    /// The single bits and the attributes they stand for.
    pub fn bits() -> (r: Vec<(usize, Self)>)
        ensures
            r@ == Self::spec_bits(),
    {
        let mut bits: Vec<(usize, Self)> = Vec::new();
        bits.push((1, Self::In));
        bits.push((2, Self::Out));
        bits.push((0x10, Self::Optional));
        bits.push((0x1000, Self::HasDefault));
        bits.push((0x2000, Self::HasFieldMarshal));
        assert(bits@ =~= Self::spec_bits());
        bits
    }

    /// The attributes that `value` stands for, in the order in which its
    /// bits are looked at.
    pub open spec fn spec_new(value: usize) -> Seq<Self> {
        spec_select_flags(value, Self::spec_bits(), Self::spec_bits().len() as int)
    }

    /// Decodes the attributes that `value` stands for.
    pub fn new(value: usize) -> (r: Vec<Self>)
        ensures
            r@ == Self::spec_new(value),
    {
        let bits = Self::bits();
        select_flags(value, &bits)
    }
}

/// The attributes of an event.
#[derive(Debug, Clone, Copy, PartialEq, Eq, Structural)]
pub enum ClrEventAttr {
    SpecialName,
    RTSpecialName,
}

impl ClrEventAttr {
    /// The single bits and the attributes they stand for, in the order
    /// in which they are looked at.
    pub open spec fn spec_bits() -> Seq<(usize, Self)> {
        seq![
            (0x200usize, Self::SpecialName),
            (0x400usize, Self::RTSpecialName),
        ]
    }

    /// The single bits and the attributes they stand for.
    pub fn bits() -> (r: Vec<(usize, Self)>)
        ensures
            r@ == Self::spec_bits(),
    {
        let mut bits: Vec<(usize, Self)> = Vec::new();
        bits.push((0x200, Self::SpecialName));
        bits.push((0x400, Self::RTSpecialName));
        assert(bits@ =~= Self::spec_bits());
        bits
    }

    /// The attributes that `value` stands for, in the order in which its
    /// bits are looked at.
    pub open spec fn spec_new(value: usize) -> Seq<Self> {
        spec_select_flags(value, Self::spec_bits(), Self::spec_bits().len() as int)
    }

    /// Decodes the attributes that `value` stands for.
    pub fn new(value: usize) -> (r: Vec<Self>)
        ensures
            r@ == Self::spec_new(value),
    {
        let bits = Self::bits();
        select_flags(value, &bits)
    }
}

/// The attributes of a property.
#[derive(Debug, Clone, Copy, PartialEq, Eq, Structural)]
pub enum ClrPropertyAttr {
    SpecialName,
    RTSpecialName,
    HasDefault,
}

impl ClrPropertyAttr {
    /// The single bits and the attributes they stand for, in the order
    /// in which they are looked at.
    pub open spec fn spec_bits() -> Seq<(usize, Self)> {
        seq![
            (0x200usize, Self::SpecialName),
            (0x400usize, Self::RTSpecialName),
            (0x1000usize, Self::HasDefault),
        ]
    }

    /// The single bits and the attributes they stand for.
    pub fn bits() -> (r: Vec<(usize, Self)>)
        ensures
            r@ == Self::spec_bits(),
    {
        let mut bits: Vec<(usize, Self)> = Vec::new();
        bits.push((0x200, Self::SpecialName));
        bits.push((0x400, Self::RTSpecialName));
        bits.push((0x1000, Self::HasDefault));
        assert(bits@ =~= Self::spec_bits());
        bits
    }

    /// The attributes that `value` stands for, in the order in which its
    /// bits are looked at.
    pub open spec fn spec_new(value: usize) -> Seq<Self> {
        spec_select_flags(value, Self::spec_bits(), Self::spec_bits().len() as int)
    }

    /// Decodes the attributes that `value` stands for.
    pub fn new(value: usize) -> (r: Vec<Self>)
        ensures
            r@ == Self::spec_new(value),
    {
        let bits = Self::bits();
        select_flags(value, &bits)
    }
}

/// The part that a method plays for a property or an event.
#[derive(Debug, Clone, Copy, PartialEq, Eq, Structural)]
pub enum ClrMethodSemanticsAttr {
    Setter,
    Getter,
    Other,
    AddOn,
    RemoveOn,
    Fire,
}

impl ClrMethodSemanticsAttr {
    /// The single bits and the attributes they stand for, in the order
    /// in which they are looked at.
    pub open spec fn spec_bits() -> Seq<(usize, Self)> {
        seq![
            (1usize, Self::Setter),
            (2usize, Self::Getter),
            (4usize, Self::Other),
            (8usize, Self::AddOn),
            (0x10usize, Self::RemoveOn),
            (0x20usize, Self::Fire),
        ]
    }

    /// The single bits and the attributes they stand for.
    pub fn bits() -> (r: Vec<(usize, Self)>)
        ensures
            r@ == Self::spec_bits(),
    {
        let mut bits: Vec<(usize, Self)> = Vec::new();
        bits.push((1, Self::Setter));
        bits.push((2, Self::Getter));
        bits.push((4, Self::Other));
        bits.push((8, Self::AddOn));
        bits.push((0x10, Self::RemoveOn));
        bits.push((0x20, Self::Fire));
        assert(bits@ =~= Self::spec_bits());
        bits
    }

    /// The attributes that `value` stands for, in the order in which its
    /// bits are looked at.
    pub open spec fn spec_new(value: usize) -> Seq<Self> {
        spec_select_flags(value, Self::spec_bits(), Self::spec_bits().len() as int)
    }

    /// Decodes the attributes that `value` stands for.
    pub fn new(value: usize) -> (r: Vec<Self>)
        ensures
            r@ == Self::spec_new(value),
    {
        let bits = Self::bits();
        select_flags(value, &bits)
    }
}

/// The character set of a platform invoke.
#[derive(Debug, Clone, Copy, PartialEq, Eq, Structural)]
pub enum CorPinvokeMapCharSet {
    NotSpec,
    Ansi,
    Unicode,
    Auto,
}

impl CorPinvokeMapCharSet {
    /// The choice that the bits `6` of `val` make.
    pub open spec fn spec_new(val: usize) -> Self {
        match val & 6 {
            2 => Self::Ansi,
            4 => Self::Unicode,
            6 => Self::Auto,
            _ => Self::NotSpec,
        }
    }

    /// Decodes the bits `6` of `val`.
    pub fn new(val: usize) -> (r: Self)
        ensures
            r == Self::spec_new(val),
    {
        match val & 6 {
            2 => Self::Ansi,
            4 => Self::Unicode,
            6 => Self::Auto,
            _ => Self::NotSpec,
        }
    }
}

/// Whether best-fit mapping of characters is on.
#[derive(Debug, Clone, Copy, PartialEq, Eq, Structural)]
pub enum CorPinvokeBestFit {
    UseAssem,
    Enabled,
    Disabled,
}

impl CorPinvokeBestFit {
    /// The choice that the bits `0x30` of `val` make.
    pub open spec fn spec_new(val: usize) -> Self {
        match val & 0x30 {
            0x10 => Self::Enabled,
            0x20 => Self::Disabled,
            _ => Self::UseAssem,
        }
    }

    /// Decodes the bits `0x30` of `val`.
    pub fn new(val: usize) -> (r: Self)
        ensures
            r == Self::spec_new(val),
    {
        match val & 0x30 {
            0x10 => Self::Enabled,
            0x20 => Self::Disabled,
            _ => Self::UseAssem,
        }
    }
}

/// Whether a character that cannot be mapped is an error.
#[derive(Debug, Clone, Copy, PartialEq, Eq, Structural)]
pub enum CorPinvokeThrowOnUnmappableChar {
    UseAssem,
    Enabled,
    Disabled,
}

impl CorPinvokeThrowOnUnmappableChar {
    /// The choice that the bits `0x3000` of `val` make.
    pub open spec fn spec_new(val: usize) -> Self {
        match val & 0x3000 {
            0x1000 => Self::Enabled,
            0x2000 => Self::Disabled,
            _ => Self::UseAssem,
        }
    }

    /// Decodes the bits `0x3000` of `val`.
    pub fn new(val: usize) -> (r: Self)
        ensures
            r == Self::spec_new(val),
    {
        match val & 0x3000 {
            0x1000 => Self::Enabled,
            0x2000 => Self::Disabled,
            _ => Self::UseAssem,
        }
    }
}

/// The calling convention of a platform invoke.
#[derive(Debug, Clone, Copy, PartialEq, Eq, Structural)]
pub enum CorPinvokeCallConv {
    Unset,
    Winapi,
    Cdecl,
    Stdcall,
    Thiscall,
    Fastcall,
    Unknown1,
    Unknown2,
}

impl CorPinvokeCallConv {
    /// The choice that the bits `0x700` of `val` make.
    pub open spec fn spec_new(val: usize) -> Self {
        match val & 0x700 {
            0x100 => Self::Winapi,
            0x200 => Self::Cdecl,
            0x300 => Self::Stdcall,
            0x400 => Self::Thiscall,
            0x500 => Self::Fastcall,
            0x600 => Self::Unknown1,
            0x700 => Self::Unknown2,
            _ => Self::Unset,
        }
    }

    /// Decodes the bits `0x700` of `val`.
    pub fn new(val: usize) -> (r: Self)
        ensures
            r == Self::spec_new(val),
    {
        match val & 0x700 {
            0x100 => Self::Winapi,
            0x200 => Self::Cdecl,
            0x300 => Self::Stdcall,
            0x400 => Self::Thiscall,
            0x500 => Self::Fastcall,
            0x600 => Self::Unknown1,
            0x700 => Self::Unknown2,
            _ => Self::Unset,
        }
    }
}

/// The attributes of a platform invoke.
#[derive(Debug, Clone, Copy, PartialEq, Eq, Structural)]
pub enum ClrPinvokeMap {
    CharSet(CorPinvokeMapCharSet),
    BestFit(CorPinvokeBestFit),
    ThrowOnUnmappableChar(CorPinvokeThrowOnUnmappableChar),
    CallConv(CorPinvokeCallConv),
    NoMangle,
    SupportsLastError,
}

impl ClrPinvokeMap {
    /// The single bits and the attributes they stand for, in the order
    /// in which they are looked at.
    pub open spec fn spec_bits() -> Seq<(usize, Self)> {
        seq![
            (1usize, Self::NoMangle),
            (0x40usize, Self::SupportsLastError),
        ]
    }

    /// The single bits and the attributes they stand for.
    pub fn bits() -> (r: Vec<(usize, Self)>)
        ensures
            r@ == Self::spec_bits(),
    {
        let mut bits: Vec<(usize, Self)> = Vec::new();
        bits.push((1, Self::NoMangle));
        bits.push((0x40, Self::SupportsLastError));
        assert(bits@ =~= Self::spec_bits());
        bits
    }

    /// The attributes that `value` stands for, in the order in which its
    /// bits are looked at.
    pub open spec fn spec_new(value: usize) -> Seq<Self> {
        seq![Self::CharSet(CorPinvokeMapCharSet::spec_new(value))]
        + seq![Self::BestFit(CorPinvokeBestFit::spec_new(value))]
        + seq![Self::ThrowOnUnmappableChar(CorPinvokeThrowOnUnmappableChar::spec_new(value))]
        + seq![Self::CallConv(CorPinvokeCallConv::spec_new(value))]
        + spec_select_flags(value, Self::spec_bits(), Self::spec_bits().len() as int)
    }

    /// Decodes the attributes that `value` stands for.
    pub fn new(value: usize) -> (r: Vec<Self>)
        ensures
            r@ == Self::spec_new(value),
    {
        let mut res: Vec<Self> = Vec::new();
        res.push(Self::CharSet(CorPinvokeMapCharSet::new(value)));
        res.push(Self::BestFit(CorPinvokeBestFit::new(value)));
        res.push(Self::ThrowOnUnmappableChar(CorPinvokeThrowOnUnmappableChar::new(value)));
        res.push(Self::CallConv(CorPinvokeCallConv::new(value)));
        let bits = Self::bits();
        let mut flags = select_flags(value, &bits);
        res.append(&mut flags);
        assert(res@ =~= Self::spec_new(value));
        res
    }
}

/// The hash algorithm of an assembly.
#[derive(Debug, Clone, Copy, PartialEq, Eq, Structural)]
pub enum AssemblyHashAlgorithm {
    Unset,
    Md5,
    Sha1,
    Sha256,
    Sha384,
    Sha512,
}

impl AssemblyHashAlgorithm {
    /// The choice that the value itself of `val` make.
    pub open spec fn spec_new(val: usize) -> Self {
        match val {
            0x8003 => Self::Md5,
            0x8004 => Self::Sha1,
            0x800c => Self::Sha256,
            0x800d => Self::Sha384,
            0x800e => Self::Sha512,
            _ => Self::Unset,
        }
    }

    /// Decodes the value itself of `val`.
    pub fn new(val: usize) -> (r: Self)
        ensures
            r == Self::spec_new(val),
    {
        match val {
            0x8003 => Self::Md5,
            0x8004 => Self::Sha1,
            0x800c => Self::Sha256,
            0x800d => Self::Sha384,
            0x800e => Self::Sha512,
            _ => Self::Unset,
        }
    }
}

impl Default for AssemblyHashAlgorithm {
    fn default() -> (r: Self)
        ensures
            r == Self::Unset,
    {
        Self::Unset
    }
}

/// The processor architecture of an assembly.
#[derive(Debug, Clone, Copy, PartialEq, Eq, Structural)]
pub enum CorAssemblyFlagsPA {
    PaNone,
    PaMSIL,
    PaX86,
    PaIA64,
    PaAMD64,
    PaUnknown1,
    PaUnknown2,
    PaUnknown3,
}

impl CorAssemblyFlagsPA {
    /// The choice that the bits `0x70` of `val` make.
    pub open spec fn spec_new(val: usize) -> Self {
        match val & 0x70 {
            0x10 => Self::PaMSIL,
            0x20 => Self::PaX86,
            0x30 => Self::PaIA64,
            0x40 => Self::PaAMD64,
            0x50 => Self::PaUnknown1,
            0x60 => Self::PaUnknown2,
            0x70 => Self::PaUnknown3,
            _ => Self::PaNone,
        }
    }

    /// Decodes the bits `0x70` of `val`.
    pub fn new(val: usize) -> (r: Self)
        ensures
            r == Self::spec_new(val),
    {
        match val & 0x70 {
            0x10 => Self::PaMSIL,
            0x20 => Self::PaX86,
            0x30 => Self::PaIA64,
            0x40 => Self::PaAMD64,
            0x50 => Self::PaUnknown1,
            0x60 => Self::PaUnknown2,
            0x70 => Self::PaUnknown3,
            _ => Self::PaNone,
        }
    }
}

/// The flags of an assembly.
#[derive(Debug, Clone, Copy, PartialEq, Eq, Structural)]
pub enum ClrAssemblyFlags {
    PublicKey,
    PA(CorAssemblyFlagsPA),
    PaSpecified,
    EnableJITcompileTracking,
    DisableJITcompileOptimizer,
    Retargetable,
}

impl ClrAssemblyFlags {
    /// The single bits and the attributes they stand for, in the order
    /// in which they are looked at.
    pub open spec fn spec_bits() -> Seq<(usize, Self)> {
        seq![
            (1usize, Self::PublicKey),
            (0x100usize, Self::Retargetable),
            (0x4000usize, Self::DisableJITcompileOptimizer),
            (0x8000usize, Self::EnableJITcompileTracking),
        ]
    }

    /// The single bits and the attributes they stand for.
    pub fn bits() -> (r: Vec<(usize, Self)>)
        ensures
            r@ == Self::spec_bits(),
    {
        let mut bits: Vec<(usize, Self)> = Vec::new();
        bits.push((1, Self::PublicKey));
        bits.push((0x100, Self::Retargetable));
        bits.push((0x4000, Self::DisableJITcompileOptimizer));
        bits.push((0x8000, Self::EnableJITcompileTracking));
        assert(bits@ =~= Self::spec_bits());
        bits
    }

    /// The attributes that `value` stands for, in the order in which its
    /// bits are looked at.
    pub open spec fn spec_new(value: usize) -> Seq<Self> {
        spec_select_flags(value, Self::spec_bits(), Self::spec_bits().len() as int)
        + (if value & 0x80 != 0 {
            seq![Self::PaSpecified, Self::PA(CorAssemblyFlagsPA::spec_new(value))]
        } else {
            seq![]
        })
    }

    /// Decodes the attributes that `value` stands for.
    pub fn new(value: usize) -> (r: Vec<Self>)
        ensures
            r@ == Self::spec_new(value),
    {
        let mut res: Vec<Self> = Vec::new();
        let bits = Self::bits();
        let mut flags = select_flags(value, &bits);
        res.append(&mut flags);
        if value & 0x80 != 0 {
            res.push(Self::PaSpecified);
            res.push(Self::PA(CorAssemblyFlagsPA::new(value)));
        }
        assert(res@ =~= Self::spec_new(value));
        res
    }
}

/// Whether a file of an assembly holds metadata.
#[derive(Debug, Clone, Copy, PartialEq, Eq, Structural)]
pub enum ClrFileFlags {
    ContainsMetaData,
    ContainsNoMetaData,
}

impl ClrFileFlags {
    /// The attributes that `value` stands for, in the order in which its
    /// bits are looked at.
    pub open spec fn spec_new(value: usize) -> Seq<Self> {
        (if value & 1 != 0 {
            seq![Self::ContainsNoMetaData]
        } else {
            seq![Self::ContainsMetaData]
        })
    }

    /// Decodes the attributes that `value` stands for.
    pub fn new(value: usize) -> (r: Vec<Self>)
        ensures
            r@ == Self::spec_new(value),
    {
        let mut res: Vec<Self> = Vec::new();
        if value & 1 != 0 {
            res.push(Self::ContainsNoMetaData);
        } else {
            res.push(Self::ContainsMetaData);
        }
        assert(res@ =~= Self::spec_new(value));
        res
    }
}

/// Who may see a manifest resource.
#[derive(Debug, Clone, Copy, PartialEq, Eq, Structural)]
pub enum CorManifestResourceVisibility {
    Unset,
    Public,
    Private,
    Unknown1,
    Unknown2,
    Unknown3,
    Unknown4,
    Unknown5,
}

impl CorManifestResourceVisibility {
    /// The choice that the bits `7` of `val` make.
    pub open spec fn spec_new(val: usize) -> Self {
        match val & 7 {
            1 => Self::Public,
            2 => Self::Private,
            3 => Self::Unknown1,
            4 => Self::Unknown2,
            5 => Self::Unknown3,
            6 => Self::Unknown4,
            7 => Self::Unknown5,
            _ => Self::Unset,
        }
    }

    /// Decodes the bits `7` of `val`.
    pub fn new(val: usize) -> (r: Self)
        ensures
            r == Self::spec_new(val),
    {
        match val & 7 {
            1 => Self::Public,
            2 => Self::Private,
            3 => Self::Unknown1,
            4 => Self::Unknown2,
            5 => Self::Unknown3,
            6 => Self::Unknown4,
            7 => Self::Unknown5,
            _ => Self::Unset,
        }
    }
}

/// The flags of a manifest resource.
#[derive(Debug, Clone, Copy, PartialEq, Eq, Structural)]
pub enum ClrManifestResourceFlags {
    Visibility(CorManifestResourceVisibility),
}

impl ClrManifestResourceFlags {
    /// The attributes that `value` stands for, in the order in which its
    /// bits are looked at.
    pub open spec fn spec_new(value: usize) -> Seq<Self> {
        seq![Self::Visibility(CorManifestResourceVisibility::spec_new(value))]
    }

    /// Decodes the attributes that `value` stands for.
    pub fn new(value: usize) -> (r: Vec<Self>)
        ensures
            r@ == Self::spec_new(value),
    {
        let mut res: Vec<Self> = Vec::new();
        res.push(Self::Visibility(CorManifestResourceVisibility::new(value)));
        assert(res@ =~= Self::spec_new(value));
        res
    }
}

/// The variance of a generic parameter.
#[derive(Debug, Clone, Copy, PartialEq, Eq, Structural)]
pub enum CorGenericParamVariance {
    NonVariant,
    Covariant,
    Contravariant,
    Unknown1,
}

impl CorGenericParamVariance {
    /// The choice that the bits `3` of `val` make.
    pub open spec fn spec_new(val: usize) -> Self {
        match val & 3 {
            1 => Self::Covariant,
            2 => Self::Contravariant,
            3 => Self::Unknown1,
            _ => Self::NonVariant,
        }
    }

    /// Decodes the bits `3` of `val`.
    pub fn new(val: usize) -> (r: Self)
        ensures
            r == Self::spec_new(val),
    {
        match val & 3 {
            1 => Self::Covariant,
            2 => Self::Contravariant,
            3 => Self::Unknown1,
            _ => Self::NonVariant,
        }
    }
}

/// A special constraint of a generic parameter. A parameter may have
/// several; `ClrGenericParamAttr::new` lists each of them.
#[derive(Debug, Clone, Copy, PartialEq, Eq, Structural)]
pub enum CorGenericParamSpecialConstraint {
    NoSpecialConstraint,
    ReferenceTypeConstraint,
    NotNullableValueTypeConstraint,
    DefaultConstructorConstraint,
}

impl CorGenericParamSpecialConstraint {
    /// The one constraint that the bits `0x1c` of `val` stand for; a word
    /// with none of these bits, or with more than one, has no single one.
    pub open spec fn spec_new(val: usize) -> Self {
        match val & 0x1c {
            4 => Self::ReferenceTypeConstraint,
            8 => Self::NotNullableValueTypeConstraint,
            0x10 => Self::DefaultConstructorConstraint,
            _ => Self::NoSpecialConstraint,
        }
    }

    /// Decodes the bits `0x1c` of `val` where they stand for one
    /// constraint.
    pub fn new(val: usize) -> (r: Self)
        ensures
            r == Self::spec_new(val),
    {
        match val & 0x1c {
            4 => Self::ReferenceTypeConstraint,
            8 => Self::NotNullableValueTypeConstraint,
            0x10 => Self::DefaultConstructorConstraint,
            _ => Self::NoSpecialConstraint,
        }
    }
}

/// The attributes of a generic parameter.
#[derive(Debug, Clone, Copy, PartialEq, Eq, Structural)]
pub enum ClrGenericParamAttr {
    Variance(CorGenericParamVariance),
    SpecialConstraint(CorGenericParamSpecialConstraint),
}

impl ClrGenericParamAttr {
    /// The single bits of the special constraints and the constraints they
    /// stand for, in the order in which they are looked at.
    pub open spec fn spec_bits() -> Seq<(usize, Self)> {
        seq![
            (4usize, Self::SpecialConstraint(CorGenericParamSpecialConstraint::ReferenceTypeConstraint)),
            (
                8usize,
                Self::SpecialConstraint(
                    CorGenericParamSpecialConstraint::NotNullableValueTypeConstraint,
                ),
            ),
            (
                0x10usize,
                Self::SpecialConstraint(CorGenericParamSpecialConstraint::DefaultConstructorConstraint),
            ),
        ]
    }

    /// The single bits of the special constraints and the constraints they
    /// stand for.
    pub fn bits() -> (r: Vec<(usize, Self)>)
        ensures
            r@ == Self::spec_bits(),
    {
        let mut bits: Vec<(usize, Self)> = Vec::new();
        bits.push(
            (4, Self::SpecialConstraint(CorGenericParamSpecialConstraint::ReferenceTypeConstraint)),
        );
        bits.push(
            (
                8,
                Self::SpecialConstraint(
                    CorGenericParamSpecialConstraint::NotNullableValueTypeConstraint,
                ),
            ),
        );
        bits.push(
            (
                0x10,
                Self::SpecialConstraint(CorGenericParamSpecialConstraint::DefaultConstructorConstraint),
            ),
        );
        assert(bits@ =~= Self::spec_bits());
        bits
    }

    /// The attributes that `value` stands for: the variance, and then each
    /// special constraint whose bit is set, in the order of the bits. A
    /// word without such a bit has the one entry that says so.
    pub open spec fn spec_new(value: usize) -> Seq<Self> {
        seq![Self::Variance(CorGenericParamVariance::spec_new(value))] + (if value & 0x1c == 0 {
            seq![Self::SpecialConstraint(CorGenericParamSpecialConstraint::NoSpecialConstraint)]
        } else {
            spec_select_flags(value, Self::spec_bits(), Self::spec_bits().len() as int)
        })
    }

    /// Decodes the attributes that `value` stands for.
    pub fn new(value: usize) -> (r: Vec<Self>)
        ensures
            r@ == Self::spec_new(value),
    {
        let mut res: Vec<Self> = Vec::new();
        res.push(Self::Variance(CorGenericParamVariance::new(value)));
        if value & 0x1c == 0 {
            res.push(Self::SpecialConstraint(CorGenericParamSpecialConstraint::NoSpecialConstraint));
        } else {
            let bits = Self::bits();
            let mut flags = select_flags(value, &bits);
            res.append(&mut flags);
        }
        assert(res@ =~= Self::spec_new(value));
        res
    }
}

} // verus!
