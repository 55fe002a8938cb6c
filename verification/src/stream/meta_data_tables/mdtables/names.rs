//! The names and the numbers of the metadata tables.
use vstd::prelude::*;
use crate::error::Error;
use crate::utils::str_eq;
use crate::Result;

verus! {

/// The number of table slots of the format.
pub const MAX_TABLES: usize = 64;

/// The number of the table with the given name.
pub open spec fn spec_table_index(name: Seq<char>) -> Option<usize> {
    if name == "Module"@ {
        Some(0usize)
    } else if name == "TypeRef"@ {
        Some(1usize)
    } else if name == "TypeDef"@ {
        Some(2usize)
    } else if name == "FieldPtr"@ {
        Some(3usize)
    } else if name == "Field"@ {
        Some(4usize)
    } else if name == "MethodPtr"@ {
        Some(5usize)
    } else if name == "MethodDef"@ {
        Some(6usize)
    } else if name == "ParamPtr"@ {
        Some(7usize)
    } else if name == "Param"@ {
        Some(8usize)
    } else if name == "InterfaceImpl"@ {
        Some(9usize)
    } else if name == "MemberRef"@ {
        Some(10usize)
    } else if name == "Constant"@ {
        Some(11usize)
    } else if name == "CustomAttribute"@ {
        Some(12usize)
    } else if name == "FieldMarshal"@ {
        Some(13usize)
    } else if name == "DeclSecurity"@ {
        Some(14usize)
    } else if name == "ClassLayout"@ {
        Some(15usize)
    } else if name == "FieldLayout"@ {
        Some(16usize)
    } else if name == "StandAloneSig"@ {
        Some(17usize)
    } else if name == "EventMap"@ {
        Some(18usize)
    } else if name == "EventPtr"@ {
        Some(19usize)
    } else if name == "Event"@ {
        Some(20usize)
    } else if name == "PropertyMap"@ {
        Some(21usize)
    } else if name == "PropertyPtr"@ {
        Some(22usize)
    } else if name == "Property"@ {
        Some(23usize)
    } else if name == "MethodSemantics"@ {
        Some(24usize)
    } else if name == "MethodImpl"@ {
        Some(25usize)
    } else if name == "ModuleRef"@ {
        Some(26usize)
    } else if name == "TypeSpec"@ {
        Some(27usize)
    } else if name == "ImplMap"@ {
        Some(28usize)
    } else if name == "FieldRva"@ {
        Some(29usize)
    } else if name == "EncLog"@ {
        Some(30usize)
    } else if name == "EncMap"@ {
        Some(31usize)
    } else if name == "Assembly"@ {
        Some(32usize)
    } else if name == "AssemblyProcessor"@ {
        Some(33usize)
    } else if name == "AssemblyOS"@ {
        Some(34usize)
    } else if name == "AssemblyRef"@ {
        Some(35usize)
    } else if name == "AssemblyRefProcessor"@ {
        Some(36usize)
    } else if name == "AssemblyRefOS"@ {
        Some(37usize)
    } else if name == "File"@ {
        Some(38usize)
    } else if name == "ExportedType"@ {
        Some(39usize)
    } else if name == "ManifestResource"@ {
        Some(40usize)
    } else if name == "NestedClass"@ {
        Some(41usize)
    } else if name == "GenericParam"@ {
        Some(42usize)
    } else if name == "GenericMethod"@ {
        Some(43usize)
    } else if name == "GenericParamConstraint"@ {
        Some(44usize)
    } else if name == "Unused"@ {
        Some(62usize)
    } else if name == "MaxTable"@ {
        Some(63usize)
    } else {
        None
    }
}

/// The name of the table with the given number.
pub open spec fn spec_table_name(index: usize) -> Option<&'static str> {
    match index {
        0 => Some("Module"),
        1 => Some("TypeRef"),
        2 => Some("TypeDef"),
        3 => Some("FieldPtr"),
        4 => Some("Field"),
        5 => Some("MethodPtr"),
        6 => Some("MethodDef"),
        7 => Some("ParamPtr"),
        8 => Some("Param"),
        9 => Some("InterfaceImpl"),
        10 => Some("MemberRef"),
        11 => Some("Constant"),
        12 => Some("CustomAttribute"),
        13 => Some("FieldMarshal"),
        14 => Some("DeclSecurity"),
        15 => Some("ClassLayout"),
        16 => Some("FieldLayout"),
        17 => Some("StandAloneSig"),
        18 => Some("EventMap"),
        19 => Some("EventPtr"),
        20 => Some("Event"),
        21 => Some("PropertyMap"),
        22 => Some("PropertyPtr"),
        23 => Some("Property"),
        24 => Some("MethodSemantics"),
        25 => Some("MethodImpl"),
        26 => Some("ModuleRef"),
        27 => Some("TypeSpec"),
        28 => Some("ImplMap"),
        29 => Some("FieldRva"),
        30 => Some("EncLog"),
        31 => Some("EncMap"),
        32 => Some("Assembly"),
        33 => Some("AssemblyProcessor"),
        34 => Some("AssemblyOS"),
        35 => Some("AssemblyRef"),
        36 => Some("AssemblyRefProcessor"),
        37 => Some("AssemblyRefOS"),
        38 => Some("File"),
        39 => Some("ExportedType"),
        40 => Some("ManifestResource"),
        41 => Some("NestedClass"),
        42 => Some("GenericParam"),
        43 => Some("GenericMethod"),
        44 => Some("GenericParamConstraint"),
        62 => Some("Unused"),
        63 => Some("MaxTable"),
        _ => None,
    }
}

/// The number of the table with the given name.
pub fn table_name_2_index(name: &'static str) -> (r: Result<usize>)
    ensures
        match spec_table_index(name@) {
            Some(index) => r == Ok::<usize, Error>(index) && index < MAX_TABLES,
            None => r == Err::<usize, Error>(Error::UndefinedMetaDataTableName(name)),
        },
{
    if str_eq(name, "Module") {
        Ok(0)
    } else if str_eq(name, "TypeRef") {
        Ok(1)
    } else if str_eq(name, "TypeDef") {
        Ok(2)
    } else if str_eq(name, "FieldPtr") {
        Ok(3)
    } else if str_eq(name, "Field") {
        Ok(4)
    } else if str_eq(name, "MethodPtr") {
        Ok(5)
    } else if str_eq(name, "MethodDef") {
        Ok(6)
    } else if str_eq(name, "ParamPtr") {
        Ok(7)
    } else if str_eq(name, "Param") {
        Ok(8)
    } else if str_eq(name, "InterfaceImpl") {
        Ok(9)
    } else if str_eq(name, "MemberRef") {
        Ok(10)
    } else if str_eq(name, "Constant") {
        Ok(11)
    } else if str_eq(name, "CustomAttribute") {
        Ok(12)
    } else if str_eq(name, "FieldMarshal") {
        Ok(13)
    } else if str_eq(name, "DeclSecurity") {
        Ok(14)
    } else if str_eq(name, "ClassLayout") {
        Ok(15)
    } else if str_eq(name, "FieldLayout") {
        Ok(16)
    } else if str_eq(name, "StandAloneSig") {
        Ok(17)
    } else if str_eq(name, "EventMap") {
        Ok(18)
    } else if str_eq(name, "EventPtr") {
        Ok(19)
    } else if str_eq(name, "Event") {
        Ok(20)
    } else if str_eq(name, "PropertyMap") {
        Ok(21)
    } else if str_eq(name, "PropertyPtr") {
        Ok(22)
    } else if str_eq(name, "Property") {
        Ok(23)
    } else if str_eq(name, "MethodSemantics") {
        Ok(24)
    } else if str_eq(name, "MethodImpl") {
        Ok(25)
    } else if str_eq(name, "ModuleRef") {
        Ok(26)
    } else if str_eq(name, "TypeSpec") {
        Ok(27)
    } else if str_eq(name, "ImplMap") {
        Ok(28)
    } else if str_eq(name, "FieldRva") {
        Ok(29)
    } else if str_eq(name, "EncLog") {
        Ok(30)
    } else if str_eq(name, "EncMap") {
        Ok(31)
    } else if str_eq(name, "Assembly") {
        Ok(32)
    } else if str_eq(name, "AssemblyProcessor") {
        Ok(33)
    } else if str_eq(name, "AssemblyOS") {
        Ok(34)
    } else if str_eq(name, "AssemblyRef") {
        Ok(35)
    } else if str_eq(name, "AssemblyRefProcessor") {
        Ok(36)
    } else if str_eq(name, "AssemblyRefOS") {
        Ok(37)
    } else if str_eq(name, "File") {
        Ok(38)
    } else if str_eq(name, "ExportedType") {
        Ok(39)
    } else if str_eq(name, "ManifestResource") {
        Ok(40)
    } else if str_eq(name, "NestedClass") {
        Ok(41)
    } else if str_eq(name, "GenericParam") {
        Ok(42)
    } else if str_eq(name, "GenericMethod") {
        Ok(43)
    } else if str_eq(name, "GenericParamConstraint") {
        Ok(44)
    } else if str_eq(name, "Unused") {
        Ok(62)
    } else if str_eq(name, "MaxTable") {
        Ok(63)
    } else {
        Err(Error::UndefinedMetaDataTableName(name))
    }
}

/// The name of the table with the given number: the tables 0 to 44, and
/// the two reserved ones, 62 and 63.
pub fn table_index_2_name(index: usize) -> (r: Option<&'static str>)
    ensures
        r == spec_table_name(index),
{
    match index {
        0 => Some("Module"),
        1 => Some("TypeRef"),
        2 => Some("TypeDef"),
        3 => Some("FieldPtr"),
        4 => Some("Field"),
        5 => Some("MethodPtr"),
        6 => Some("MethodDef"),
        7 => Some("ParamPtr"),
        8 => Some("Param"),
        9 => Some("InterfaceImpl"),
        10 => Some("MemberRef"),
        11 => Some("Constant"),
        12 => Some("CustomAttribute"),
        13 => Some("FieldMarshal"),
        14 => Some("DeclSecurity"),
        15 => Some("ClassLayout"),
        16 => Some("FieldLayout"),
        17 => Some("StandAloneSig"),
        18 => Some("EventMap"),
        19 => Some("EventPtr"),
        20 => Some("Event"),
        21 => Some("PropertyMap"),
        22 => Some("PropertyPtr"),
        23 => Some("Property"),
        24 => Some("MethodSemantics"),
        25 => Some("MethodImpl"),
        26 => Some("ModuleRef"),
        27 => Some("TypeSpec"),
        28 => Some("ImplMap"),
        29 => Some("FieldRva"),
        30 => Some("EncLog"),
        31 => Some("EncMap"),
        32 => Some("Assembly"),
        33 => Some("AssemblyProcessor"),
        34 => Some("AssemblyOS"),
        35 => Some("AssemblyRef"),
        36 => Some("AssemblyRefProcessor"),
        37 => Some("AssemblyRefOS"),
        38 => Some("File"),
        39 => Some("ExportedType"),
        40 => Some("ManifestResource"),
        41 => Some("NestedClass"),
        42 => Some("GenericParam"),
        43 => Some("GenericMethod"),
        44 => Some("GenericParamConstraint"),
        62 => Some("Unused"),
        63 => Some("MaxTable"),
        _ => None,
    }
}

} // verus!
