use dnfile::error::Error;
use dnfile::stream::meta_data_tables::mdtables::enums::{
    select_flags, AssemblyHashAlgorithm, ClrAssemblyFlags, ClrEventAttr, ClrFieldAttr,
    ClrFileFlags, ClrGenericParamAttr, ClrManifestResourceFlags, ClrMethodAttr, ClrMethodImpl,
    ClrMethodSemanticsAttr, ClrParamAttr, ClrPinvokeMap, ClrPropertyAttr, ClrTypeAttr,
    CorAssemblyFlagsPA, CorFieldAccess, CorGenericParamSpecialConstraint, CorGenericParamVariance,
    CorManifestResourceVisibility, CorMethodAttrFlag, CorMethodCodeType, CorMethodManaged,
    CorMethodMemberAccess, CorMethodVtableLayout, CorPinvokeBestFit, CorPinvokeCallConv,
    CorPinvokeMapCharSet, CorPinvokeThrowOnUnmappableChar, CorTypeAttrFlags, CorTypeLayout,
    CorTypeSemantics, CorTypeStringFormat, CorTypeVisibility,
};
use dnfile::ClrHeaderFlags;

#[test]
fn type_attributes() {
    assert_eq!(CorTypeVisibility::new(0), CorTypeVisibility::NotPublic);
    assert_eq!(CorTypeVisibility::new(1), CorTypeVisibility::Public);
    assert_eq!(CorTypeVisibility::new(0x107), CorTypeVisibility::NestedFamORAssem);
    assert_eq!(CorTypeLayout::new(0), CorTypeLayout::AutoLayout);
    assert_eq!(CorTypeLayout::new(0x8), CorTypeLayout::SequentialLayout);
    assert_eq!(CorTypeLayout::new(0x10), CorTypeLayout::ExplicitLayout);
    assert_eq!(CorTypeLayout::new(0x18), CorTypeLayout::AutoLayout);
    assert_eq!(CorTypeSemantics::new(0x20), CorTypeSemantics::Interface);
    assert_eq!(CorTypeSemantics::new(0x1F), CorTypeSemantics::Class);
    assert_eq!(CorTypeStringFormat::new(0x0002_0000), CorTypeStringFormat::AutoClass);
    assert_eq!(CorTypeStringFormat::new(0x0003_0000), CorTypeStringFormat::CustomFormatClass);
    assert_eq!(CorTypeStringFormat::new(0xFFFC_FFFF), CorTypeStringFormat::AnsiClass);
    assert_eq!(
        CorTypeAttrFlags::new(0x0010_0180),
        vec![CorTypeAttrFlags::Abstract, CorTypeAttrFlags::Sealed, CorTypeAttrFlags::BeforeFieldInit]
    );
    assert_eq!(CorTypeAttrFlags::new(0), vec![]);
    assert_eq!(CorTypeAttrFlags::new(0x003F_FFFF).len(), 10);
}

#[test]
fn type_attributes_from_a_field() {
    let mut attr = ClrTypeAttr::default();
    assert_eq!(attr.visibility, CorTypeVisibility::NotPublic);
    assert!(attr.flags.is_empty());
    attr.set(&[0xA1, 0x01, 0x10, 0x00]).unwrap();
    assert_eq!(attr.visibility, CorTypeVisibility::Public);
    assert_eq!(attr.layout, CorTypeLayout::AutoLayout);
    assert_eq!(attr.class_semantics, CorTypeSemantics::Interface);
    assert_eq!(
        attr.flags,
        vec![CorTypeAttrFlags::Abstract, CorTypeAttrFlags::Sealed, CorTypeAttrFlags::BeforeFieldInit]
    );
    assert_eq!(attr.string_format, CorTypeStringFormat::AnsiClass);
    assert_eq!(attr.set(&[0x00, 0x00]), Err(Error::FormatError(2, 4)));
    assert_eq!(attr.set(&[0; 8]), Err(Error::FormatError(8, 4)));
    assert_eq!(attr.visibility, CorTypeVisibility::Public);
    let same = ClrTypeAttr::from_value(0x0010_01A1);
    assert_eq!(same.flags, attr.flags);
    assert_eq!(same.class_semantics, attr.class_semantics);
}

#[test]
fn method_attributes() {
    assert_eq!(CorMethodCodeType::new(0), CorMethodCodeType::IL);
    assert_eq!(CorMethodCodeType::new(1), CorMethodCodeType::Native);
    assert_eq!(CorMethodCodeType::new(7), CorMethodCodeType::Runtime);
    assert_eq!(CorMethodManaged::new(4), CorMethodManaged::Unmanaged);
    assert_eq!(CorMethodManaged::new(3), CorMethodManaged::Managed);
    assert_eq!(
        ClrMethodImpl::new(0),
        vec![
            ClrMethodImpl::MethodCodeType(CorMethodCodeType::IL),
            ClrMethodImpl::MethodManaged(CorMethodManaged::Managed),
        ]
    );
    assert_eq!(
        ClrMethodImpl::new(0x1095),
        vec![
            ClrMethodImpl::ForwardRef,
            ClrMethodImpl::PreserveSig,
            ClrMethodImpl::InternalCall,
            ClrMethodImpl::MethodCodeType(CorMethodCodeType::Native),
            ClrMethodImpl::MethodManaged(CorMethodManaged::Unmanaged),
        ]
    );
    assert_eq!(CorMethodMemberAccess::new(6), CorMethodMemberAccess::Public);
    assert_eq!(CorMethodMemberAccess::new(0), CorMethodMemberAccess::PrivateScope);
    assert_eq!(CorMethodVtableLayout::new(0x100), CorMethodVtableLayout::NewSlot);
    assert_eq!(CorMethodVtableLayout::new(0xFF), CorMethodVtableLayout::ReuseSlot);
    assert_eq!(
        CorMethodAttrFlag::new(0x0496),
        vec![CorMethodAttrFlag::Static, CorMethodAttrFlag::HideBySig, CorMethodAttrFlag::Abstract]
    );
    assert_eq!(
        CorMethodAttrFlag::new(0x2018),
        vec![
            CorMethodAttrFlag::Static,
            CorMethodAttrFlag::PinvokeImpl,
            CorMethodAttrFlag::UnmanagedExport
        ]
    );
    assert_eq!(
        ClrMethodAttr::new(0x0196),
        vec![
            ClrMethodAttr::MemberAccess(CorMethodMemberAccess::Public),
            ClrMethodAttr::AttrFlag(CorMethodAttrFlag::Static),
            ClrMethodAttr::AttrFlag(CorMethodAttrFlag::HideBySig),
            ClrMethodAttr::VtableLayout(CorMethodVtableLayout::NewSlot),
        ]
    );
    assert_eq!(
        ClrMethodAttr::new(0),
        vec![
            ClrMethodAttr::MemberAccess(CorMethodMemberAccess::PrivateScope),
            ClrMethodAttr::VtableLayout(CorMethodVtableLayout::ReuseSlot),
        ]
    );
}

#[test]
fn field_parameter_event_and_property_attributes() {
    assert_eq!(CorFieldAccess::new(6), CorFieldAccess::Public);
    assert_eq!(CorFieldAccess::new(8), CorFieldAccess::PrivateScope);
    assert_eq!(
        ClrFieldAttr::new(0x0116),
        vec![
            ClrFieldAttr::FieldAccess(CorFieldAccess::Public),
            ClrFieldAttr::Static,
            ClrFieldAttr::HasFieldRVA,
        ]
    );
    assert_eq!(
        ClrFieldAttr::new(0x8051),
        vec![
            ClrFieldAttr::FieldAccess(CorFieldAccess::Private),
            ClrFieldAttr::Static,
            ClrFieldAttr::Literal,
            ClrFieldAttr::HasDefault,
        ]
    );
    assert_eq!(ClrParamAttr::new(0x1013), vec![ClrParamAttr::In, ClrParamAttr::Out, ClrParamAttr::Optional, ClrParamAttr::HasDefault]);
    assert_eq!(ClrParamAttr::new(0x2000), vec![ClrParamAttr::HasFieldMarshal]);
    assert_eq!(ClrEventAttr::new(0x600), vec![ClrEventAttr::SpecialName, ClrEventAttr::RTSpecialName]);
    assert_eq!(ClrEventAttr::new(0x100), vec![]);
    assert_eq!(ClrPropertyAttr::new(0x1200), vec![ClrPropertyAttr::SpecialName, ClrPropertyAttr::HasDefault]);
    assert_eq!(
        ClrMethodSemanticsAttr::new(0x2A),
        vec![ClrMethodSemanticsAttr::Getter, ClrMethodSemanticsAttr::AddOn, ClrMethodSemanticsAttr::Fire]
    );
    assert_eq!(ClrMethodSemanticsAttr::new(0x1), vec![ClrMethodSemanticsAttr::Setter]);
}

#[test]
fn platform_invoke_attributes() {
    assert_eq!(CorPinvokeMapCharSet::new(2), CorPinvokeMapCharSet::Ansi);
    assert_eq!(CorPinvokeMapCharSet::new(6), CorPinvokeMapCharSet::Auto);
    assert_eq!(CorPinvokeBestFit::new(0x20), CorPinvokeBestFit::Disabled);
    assert_eq!(CorPinvokeBestFit::new(0x30), CorPinvokeBestFit::UseAssem);
    assert_eq!(CorPinvokeThrowOnUnmappableChar::new(0x1000), CorPinvokeThrowOnUnmappableChar::Enabled);
    assert_eq!(CorPinvokeCallConv::new(0x300), CorPinvokeCallConv::Stdcall);
    assert_eq!(CorPinvokeCallConv::new(0x0FF), CorPinvokeCallConv::Unset);
    assert_eq!(
        ClrPinvokeMap::new(0x0141),
        vec![
            ClrPinvokeMap::CharSet(CorPinvokeMapCharSet::NotSpec),
            ClrPinvokeMap::BestFit(CorPinvokeBestFit::UseAssem),
            ClrPinvokeMap::ThrowOnUnmappableChar(CorPinvokeThrowOnUnmappableChar::UseAssem),
            ClrPinvokeMap::CallConv(CorPinvokeCallConv::Winapi),
            ClrPinvokeMap::NoMangle,
            ClrPinvokeMap::SupportsLastError,
        ]
    );
}

#[test]
fn assembly_file_resource_and_generic_attributes() {
    assert_eq!(AssemblyHashAlgorithm::new(0x8004), AssemblyHashAlgorithm::Sha1);
    assert_eq!(AssemblyHashAlgorithm::new(0x800c), AssemblyHashAlgorithm::Sha256);
    assert_eq!(AssemblyHashAlgorithm::new(0), AssemblyHashAlgorithm::Unset);
    assert_eq!(AssemblyHashAlgorithm::new(0x1_8004), AssemblyHashAlgorithm::Unset);
    assert_eq!(AssemblyHashAlgorithm::default(), AssemblyHashAlgorithm::Unset);
    assert_eq!(CorAssemblyFlagsPA::new(0x40), CorAssemblyFlagsPA::PaAMD64);
    assert_eq!(CorAssemblyFlagsPA::new(0x0F), CorAssemblyFlagsPA::PaNone);
    assert_eq!(
        ClrAssemblyFlags::new(0x81A1),
        vec![
            ClrAssemblyFlags::PublicKey,
            ClrAssemblyFlags::Retargetable,
            ClrAssemblyFlags::EnableJITcompileTracking,
            ClrAssemblyFlags::PaSpecified,
            ClrAssemblyFlags::PA(CorAssemblyFlagsPA::PaX86),
        ]
    );
    assert_eq!(ClrAssemblyFlags::new(0x20), vec![]);
    assert_eq!(ClrFileFlags::new(0), vec![ClrFileFlags::ContainsMetaData]);
    assert_eq!(ClrFileFlags::new(1), vec![ClrFileFlags::ContainsNoMetaData]);
    assert_eq!(CorManifestResourceVisibility::new(2), CorManifestResourceVisibility::Private);
    assert_eq!(
        ClrManifestResourceFlags::new(1),
        vec![ClrManifestResourceFlags::Visibility(CorManifestResourceVisibility::Public)]
    );
    assert_eq!(CorGenericParamVariance::new(2), CorGenericParamVariance::Contravariant);
    assert_eq!(
        CorGenericParamSpecialConstraint::new(0x10),
        CorGenericParamSpecialConstraint::DefaultConstructorConstraint
    );
    assert_eq!(
        CorGenericParamSpecialConstraint::new(0x0C),
        CorGenericParamSpecialConstraint::NoSpecialConstraint
    );
    assert_eq!(
        ClrGenericParamAttr::new(0x05),
        vec![
            ClrGenericParamAttr::Variance(CorGenericParamVariance::Covariant),
            ClrGenericParamAttr::SpecialConstraint(
                CorGenericParamSpecialConstraint::ReferenceTypeConstraint
            ),
        ]
    );
}

#[test]
fn runtime_header_flags() {
    assert_eq!(ClrHeaderFlags::new(0), vec![]);
    assert_eq!(ClrHeaderFlags::new(1), vec![ClrHeaderFlags::IlOnly]);
    assert_eq!(
        ClrHeaderFlags::new(0x2_0009),
        vec![ClrHeaderFlags::IlOnly, ClrHeaderFlags::StrongNamesSigned, ClrHeaderFlags::Prefer32Bit]
    );
    assert_eq!(
        ClrHeaderFlags::new(0x3_001F),
        vec![
            ClrHeaderFlags::IlOnly,
            ClrHeaderFlags::BitRequired32,
            ClrHeaderFlags::IlLibrary,
            ClrHeaderFlags::StrongNamesSigned,
            ClrHeaderFlags::NativeEntryPiont,
            ClrHeaderFlags::TrackDebugData,
            ClrHeaderFlags::Prefer32Bit,
        ]
    );
    assert_eq!(ClrHeaderFlags::new(0xFFE0), vec![]);
}

#[test]
fn flags_are_picked_in_the_order_of_the_bits_given() {
    let bits = vec![(0x4usize, 'c'), (0x1, 'a'), (0x2, 'b'), (0x1, 'z')];
    assert_eq!(select_flags(0x5, &bits), vec!['c', 'a', 'z']);
    assert_eq!(select_flags(0x2, &bits), vec!['b']);
    assert_eq!(select_flags(0x8, &bits), Vec::<char>::new());
}

#[test]
fn method_attribute_bits_stand_for_one_attribute_each() {
    assert_eq!(CorMethodAttrFlag::new(0x8000), vec![CorMethodAttrFlag::RequireSecObject]);
    assert_eq!(CorMethodAttrFlag::new(0x1000), vec![CorMethodAttrFlag::RTSpecialName]);
    assert_eq!(
        CorMethodAttrFlag::new(0xD800),
        vec![
            CorMethodAttrFlag::SpecialName,
            CorMethodAttrFlag::RTSpecialName,
            CorMethodAttrFlag::HasSecurity,
            CorMethodAttrFlag::RequireSecObject,
        ]
    );
    let all = CorMethodAttrFlag::new(0xFFFF);
    assert_eq!(all.len(), 12);
    for (i, a) in all.iter().enumerate() {
        assert!(all.iter().skip(i + 1).all(|b| a != b));
    }
    assert_eq!(
        ClrMethodImpl::new(0x20),
        vec![
            ClrMethodImpl::Synchronized,
            ClrMethodImpl::MethodCodeType(CorMethodCodeType::IL),
            ClrMethodImpl::MethodManaged(CorMethodManaged::Managed),
        ]
    );
    assert_eq!(
        ClrMethodImpl::new(0x8),
        vec![
            ClrMethodImpl::NoInlining,
            ClrMethodImpl::MethodCodeType(CorMethodCodeType::IL),
            ClrMethodImpl::MethodManaged(CorMethodManaged::Managed),
        ]
    );
    assert!(!ClrMethodImpl::new(0xFFFF).contains(&ClrMethodImpl::MaxMethodImplVal));
}

#[test]
fn generic_parameter_with_several_constraints() {
    assert_eq!(
        ClrGenericParamAttr::new(0),
        vec![
            ClrGenericParamAttr::Variance(CorGenericParamVariance::NonVariant),
            ClrGenericParamAttr::SpecialConstraint(
                CorGenericParamSpecialConstraint::NoSpecialConstraint
            ),
        ]
    );
    assert_eq!(
        ClrGenericParamAttr::new(0x18),
        vec![
            ClrGenericParamAttr::Variance(CorGenericParamVariance::NonVariant),
            ClrGenericParamAttr::SpecialConstraint(
                CorGenericParamSpecialConstraint::NotNullableValueTypeConstraint
            ),
            ClrGenericParamAttr::SpecialConstraint(
                CorGenericParamSpecialConstraint::DefaultConstructorConstraint
            ),
        ]
    );
    assert_eq!(ClrGenericParamAttr::new(0x1E).len(), 4);
}
