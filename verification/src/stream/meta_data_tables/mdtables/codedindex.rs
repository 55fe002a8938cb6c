//! Coded indices: references whose low bits select the table and whose
//! upper bits hold the row.
use vstd::prelude::*;
use vstd::arithmetic::power2::pow2;
use super::names::{spec_table_index, table_name_2_index};
use super::TableLayout;
use crate::error::Error;
use crate::utils::{read_usize, spec_read_usize};
use crate::Result;

verus! {

/// The most tag bits a coded index can have.
pub const MAX_TAG_BITS: usize = 16;

/// The row count that counts for the table `name`: that of the table with
/// this name, and that of table 0 for a name that no table has.
pub open spec fn spec_row_count(name: Seq<char>, counts: Seq<usize>) -> usize {
    match spec_table_index(name) {
        Some(index) => counts[index as int],
        None => counts[0],
    }
}

/// The largest row count among the first `n` of the tables `names`.
pub open spec fn spec_max_rows(names: Seq<&'static str>, counts: Seq<usize>, n: int) -> int
    decreases n,
{
    if n <= 0 {
        0
    } else {
        let before = spec_max_rows(names, counts, n - 1);
        let count = spec_row_count(names[n - 1]@, counts) as int;
        if count > before {
            count
        } else {
            before
        }
    }
}

/// The size of a coded index in bytes: 2 while every table it can point to
/// has at most `2^(16 - tag_bits)` rows, and 4 otherwise.
pub open spec fn spec_coded_index_size(
    tag_bits: usize,
    names: Seq<&'static str>,
    counts: Seq<usize>,
) -> usize {
    if spec_max_rows(names, counts, names.len() as int) <= pow2((16 - tag_bits) as nat) {
        2
    } else {
        4
    }
}

/// Two to the power of `e`.
pub fn power_of_two(e: usize) -> (r: usize)
    requires
        e <= MAX_TAG_BITS,
    ensures
        r == pow2(e as nat),
        1 <= r <= 0x1_0000,
{
    let mut r: usize = 1;
    let mut i: usize = 0;
    proof {
        vstd::arithmetic::power2::lemma2_to64();
    }
    while i < e
        invariant
            i <= e <= MAX_TAG_BITS,
            r == pow2(i as nat),
            1 <= r <= pow2(16),
            pow2(16) == 0x1_0000,
        decreases e - i,
    {
        proof {
            vstd::arithmetic::power2::lemma_pow2_unfold((i + 1) as nat);
            if i + 1 < 16 {
                vstd::arithmetic::power2::lemma_pow2_strictly_increases((i + 1) as nat, 16);
            }
        }
        r = r * 2;
        i = i + 1;
    }
    r
}

/// The size in bytes of a coded index with `tag_bits` tag bits that can
/// point to the tables `table_names`, where table `i` has
/// `tables_row_counts[i]` rows.
pub fn clr_coded_index_struct_size(
    tag_bits: usize,
    table_names: &[&'static str],
    tables_row_counts: &[usize],
) -> (r: usize)
    requires
        tag_bits <= MAX_TAG_BITS,
        tables_row_counts@.len() >= 64,
    ensures
        r == spec_coded_index_size(tag_bits, table_names@, tables_row_counts@),
        r == 2 || r == 4,
{
    let mut max_index: usize = 0;
    let mut i: usize = 0;
    while i < table_names.len()
        invariant
            i <= table_names.len(),
            tables_row_counts@.len() >= 64,
            max_index == spec_max_rows(table_names@, tables_row_counts@, i as int),
        decreases table_names.len() - i,
    {
        let table_index = match table_name_2_index(table_names[i]) {
            Ok(s) => s,
            Err(_) => 0,
        };
        let table_rowcnt = tables_row_counts[table_index];
        if table_rowcnt > max_index {
            max_index = table_rowcnt;
        }
        i = i + 1;
    }
    if max_index <= power_of_two(16 - tag_bits) {
        2
    } else {
        4
    }
}

/// The table and the row that the value of a coded index stands for.
///
/// The low `tag_bits` bits select one of `names`, the bits above them are
/// the row. A tag without a table, and a table that is reserved or not
/// present, are refused.
pub open spec fn spec_decode_index(
    tag_bits: usize,
    names: Seq<&'static str>,
    present: Seq<bool>,
    value: usize,
) -> Result<(&'static str, usize)> {
    let tag = value as nat % pow2(tag_bits as nat);
    let row = value as nat / pow2(tag_bits as nat);
    if tag >= names.len() {
        Err(Error::CodedIndexWithUndefinedTable("Unused"))
    } else {
        match spec_table_index(names[tag as int]@) {
            Some(index) => if index < 62 && present[index as int] {
                Ok((names[tag as int], row as usize))
            } else {
                Err(Error::CodedIndexWithUndefinedTable(names[tag as int]))
            },
            None => Err(Error::CodedIndexWithUndefinedTable(names[tag as int])),
        }
    }
}

/// The table and the row that the bytes of a coded index stand for.
pub open spec fn spec_decode_field(
    tag_bits: usize,
    names: Seq<&'static str>,
    present: Seq<bool>,
    field: Seq<u8>,
) -> Result<(&'static str, usize)> {
    match spec_read_usize(field) {
        Ok(value) => spec_decode_index(tag_bits, names, present, value),
        Err(e) => Err(e),
    }
}

/// The table that a coded index is decoded to is one of the tables that
/// are present and not reserved, whatever its row.
pub proof fn lemma_decoded_table_is_present(
    tag_bits: usize,
    names: Seq<&'static str>,
    layout: &TableLayout,
    value: usize,
)
    requires
        layout.wf(),
        spec_decode_index(tag_bits, names, layout.tables_present@, value) is Ok,
    ensures
        spec_decode_index(tag_bits, names, layout.tables_present@, value) matches Ok((table, _))
            && spec_table_index(table@) matches Some(index) && index < 62
            && layout.tables_present@[index as int],
{
}

/// What a coded index is decoded to lies within the image: its table is
/// one of the tables that are present, and its row is no row or one of the
/// rows of that table, provided that the row that was written does not lie
/// past the rows of the table.
pub proof fn lemma_decoded_index_is_valid(
    tag_bits: usize,
    names: Seq<&'static str>,
    layout: &TableLayout,
    value: usize,
)
    requires
        layout.wf(),
        spec_decode_index(tag_bits, names, layout.tables_present@, value) matches Ok((table, row))
            && row <= spec_row_count(table@, layout.tables_row_counts@),
    ensures
        spec_decode_index(tag_bits, names, layout.tables_present@, value) matches Ok((table, row))
            && spec_table_index(table@) matches Some(index) && index < 64
            && layout.tables_present@[index as int] && (row == 0 || 1 <= row
            <= layout.tables_row_counts@[index as int]),
{
}

/// Decodes the bytes of a coded index with `tag_bits` tag bits and the
/// tables `names`.
pub fn decode_coded_index(
    tag_bits: usize,
    names: &[&'static str],
    value: &[u8],
    tables: &TableLayout,
) -> (r: Result<(&'static str, usize)>)
    requires
        tag_bits <= MAX_TAG_BITS,
        tables.wf(),
    ensures
        r == spec_decode_field(tag_bits, names@, tables.tables_present@, value@),
{
    let value = read_usize(value)?;
    let modulus = power_of_two(tag_bits);
    let tag = value % modulus;
    let row = value / modulus;
    if tag >= names.len() {
        return Err(Error::CodedIndexWithUndefinedTable("Unused"));
    }
    let name = names[tag];
    match table_name_2_index(name) {
        Ok(index) => if index < 62 && tables.tables_present[index] {
            Ok((name, row))
        } else {
            Err(Error::CodedIndexWithUndefinedTable(name))
        },
        Err(_) => Err(Error::CodedIndexWithUndefinedTable(name)),
    }
}

/// A reference to a row of one of several tables.
pub trait CodedIndex: Sized {
    /// The number of low bits that select the table.
    spec fn spec_tag_bits(&self) -> usize;

    /// The tables that the tags stand for, in the order of the tags.
    spec fn spec_table_names(&self) -> Seq<&'static str>;

    /// The row that is referred to, counted from one; zero is no row.
    spec fn spec_row_index(&self) -> usize;

    /// The name of the table that is referred to.
    spec fn spec_table(&self) -> &'static str;

    /// Makes the reference point to the row `value`.
    fn set_row_index(&mut self, value: usize)
        ensures
            final(self).spec_row_index() == value,
            final(self).spec_table() == old(self).spec_table(),
            final(self).spec_tag_bits() == old(self).spec_tag_bits(),
            final(self).spec_table_names() == old(self).spec_table_names(),
    ;

    /// Makes the reference point into the table `value`.
    fn set_table(&mut self, value: &'static str)
        ensures
            final(self).spec_table() == value,
            final(self).spec_row_index() == old(self).spec_row_index(),
            final(self).spec_tag_bits() == old(self).spec_tag_bits(),
            final(self).spec_table_names() == old(self).spec_table_names(),
    ;

    /// The table that the tag `index` stands for.
    fn get_table_name(&self, index: usize) -> (r: Result<&'static str>)
        ensures
            index < self.spec_table_names().len() ==> r == Ok::<&'static str, Error>(
                self.spec_table_names()[index as int],
            ),
            index >= self.spec_table_names().len() ==> r == Err::<&'static str, Error>(
                Error::CodedIndexWithUndefinedTable("Unused"),
            ),
    ;

    /// The number of low bits that select the table.
    fn get_tag_bits(&self) -> (r: usize)
        ensures
            r == self.spec_tag_bits(),
    ;

    /// The row that is referred to, counted from one; zero is no row.
    fn row_index(&self) -> (r: usize)
        ensures
            r == self.spec_row_index(),
    ;

    /// The name of the table that is referred to.
    fn table(&self) -> (r: &'static str)
        ensures
            r == self.spec_table(),
    ;

    /// Takes table and row from the bytes `value` of the reference.
    ///
    /// Where the bytes are refused the reference stays as it was.
    fn set(&mut self, value: &[u8], tables: &TableLayout) -> (r: Result<()>)
        requires
            old(self).spec_tag_bits() <= MAX_TAG_BITS,
            tables.wf(),
        ensures
            final(self).spec_tag_bits() == old(self).spec_tag_bits(),
            final(self).spec_table_names() == old(self).spec_table_names(),
            match r {
                Ok(_) => spec_decode_field(
                    old(self).spec_tag_bits(),
                    old(self).spec_table_names(),
                    tables.tables_present@,
                    value@,
                ) == Ok::<(&'static str, usize), Error>(
                    (final(self).spec_table(), final(self).spec_row_index()),
                ),
                Err(e) => {
                    &&& spec_decode_field(
                        old(self).spec_tag_bits(),
                        old(self).spec_table_names(),
                        tables.tables_present@,
                        value@,
                    ) == Err::<(&'static str, usize), Error>(e)
                    &&& final(self).spec_table() == old(self).spec_table()
                    &&& final(self).spec_row_index() == old(self).spec_row_index()
                },
            },
    {
        let value = read_usize(value)?;
        let modulus = power_of_two(self.get_tag_bits());
        let tag = value % modulus;
        let row = value / modulus;
        let name = match self.get_table_name(tag) {
            Ok(name) => name,
            Err(e) => {
                return Err(e);
            },
        };
        match table_name_2_index(name) {
            Ok(index) => if index < 62 && tables.tables_present[index] {
                self.set_row_index(row);
                self.set_table(name);
                Ok(())
            } else {
                Err(Error::CodedIndexWithUndefinedTable(name))
            },
            Err(_) => Err(Error::CodedIndexWithUndefinedTable(name)),
        }
    }
}

/// A reference whose tag bits and tables the caller gives: with no tag
/// bits and one table it is a plain row index.
#[derive(Debug, Clone)]
pub struct SimpleCodedIndex {
    pub tag_bits: usize,
    pub table_names: Vec<&'static str>,
    pub row_index: usize,
    pub table: &'static str,
}

impl SimpleCodedIndex {
    /// Decodes the field `value` as a reference with the given tag bits
    /// and tables.
    pub fn new(
        table_names: Vec<&'static str>,
        tag_bits: usize,
        value: &[u8],
        tables: &TableLayout,
    ) -> (r: Result<SimpleCodedIndex>)
        requires
            tag_bits <= MAX_TAG_BITS,
            tables.wf(),
        ensures
            match r {
                Ok(index) => {
                    &&& spec_decode_field(tag_bits, table_names@, tables.tables_present@, value@)
                        == Ok::<(&'static str, usize), Error>((index.table, index.row_index))
                    &&& index.tag_bits == tag_bits
                    &&& index.table_names@ == table_names@
                },
                Err(e) => spec_decode_field(tag_bits, table_names@, tables.tables_present@, value@)
                    == Err::<(&'static str, usize), Error>(e),
            },
    {
        let mut res = SimpleCodedIndex { tag_bits, table_names, row_index: 0, table: "" };
        res.set(value, tables)?;
        Ok(res)
    }

    /// The plain index `row_index` into the table `table`.
    pub fn to_row(table: &'static str, row_index: usize) -> (r: SimpleCodedIndex)
        ensures
            r.tag_bits == 0,
            r.table_names@ == seq![table],
            r.row_index == row_index,
            r.table == table,
    {
        let mut names: Vec<&'static str> = Vec::new();
        names.push(table);
        assert(names@ =~= seq![table]);
        SimpleCodedIndex { tag_bits: 0, table_names: names, row_index, table }
    }
}

impl Default for SimpleCodedIndex {
    /// The reference to no row of no table.
    fn default() -> (r: Self)
        ensures
            r.tag_bits == 0,
            r.table_names@.len() == 0,
            r.row_index == 0,
            r.table@.len() == 0,
    {
        proof {
            reveal_strlit("");
        }
        Self { tag_bits: 0, table_names: Vec::new(), row_index: 0, table: "" }
    }
}

impl CodedIndex for SimpleCodedIndex {
    open spec fn spec_tag_bits(&self) -> usize {
        self.tag_bits
    }

    open spec fn spec_table_names(&self) -> Seq<&'static str> {
        self.table_names@
    }

    open spec fn spec_row_index(&self) -> usize {
        self.row_index
    }

    open spec fn spec_table(&self) -> &'static str {
        self.table
    }

    fn set_row_index(&mut self, value: usize) {
        self.row_index = value;
    }

    fn set_table(&mut self, value: &'static str) {
        self.table = value;
    }

    fn get_table_name(&self, index: usize) -> (r: Result<&'static str>) {
        if index < self.table_names.len() {
            Ok(self.table_names[index])
        } else {
            Err(Error::CodedIndexWithUndefinedTable("Unused"))
        }
    }

    fn get_tag_bits(&self) -> (r: usize) {
        self.tag_bits
    }

    fn row_index(&self) -> (r: usize) {
        self.row_index
    }

    fn table(&self) -> (r: &'static str) {
        self.table
    }
}

/// What a type reference is resolved in.
#[derive(Debug, Clone)]
pub struct ResolutionScope {
    pub tag_bits: usize,
    pub table_names: Vec<&'static str>,
    pub row_index: usize,
    pub table: &'static str,
}

impl ResolutionScope {
    /// The tables that the tags stand for, in the order of the tags.
    pub open spec fn spec_names() -> Seq<&'static str> {
        seq!["Module", "ModuleRef", "AssemblyRef", "TypeRef"]
    }

    /// The tables that the tags stand for, in the order of the tags.
    pub fn names() -> (r: Vec<&'static str>)
        ensures
            r@ == Self::spec_names(),
    {
        let mut names: Vec<&'static str> = Vec::new();
        names.push("Module");
        names.push("ModuleRef");
        names.push("AssemblyRef");
        names.push("TypeRef");
        assert(names@ =~= Self::spec_names());
        names
    }
}

impl Default for ResolutionScope {
    /// The reference to no row, with the tag bits and the tables of the kind.
    fn default() -> (r: Self)
        ensures
            r.tag_bits == 2,
            r.table_names@ == Self::spec_names(),
            r.row_index == 0,
            r.table@.len() == 0,
    {
        proof {
            reveal_strlit("");
        }
        Self { tag_bits: 2, table_names: Self::names(), row_index: 0, table: "" }
    }
}

impl CodedIndex for ResolutionScope {
    open spec fn spec_tag_bits(&self) -> usize {
        self.tag_bits
    }

    open spec fn spec_table_names(&self) -> Seq<&'static str> {
        self.table_names@
    }

    open spec fn spec_row_index(&self) -> usize {
        self.row_index
    }

    open spec fn spec_table(&self) -> &'static str {
        self.table
    }

    fn set_row_index(&mut self, value: usize) {
        self.row_index = value;
    }

    fn set_table(&mut self, value: &'static str) {
        self.table = value;
    }

    fn get_table_name(&self, index: usize) -> (r: Result<&'static str>) {
        if index < self.table_names.len() {
            Ok(self.table_names[index])
        } else {
            Err(Error::CodedIndexWithUndefinedTable("Unused"))
        }
    }

    fn get_tag_bits(&self) -> (r: usize) {
        self.tag_bits
    }

    fn row_index(&self) -> (r: usize) {
        self.row_index
    }

    fn table(&self) -> (r: &'static str) {
        self.table
    }
}
/// A type, defined here, referred to, or specified.
#[derive(Debug, Clone)]
pub struct TypeDefOrRef {
    pub tag_bits: usize,
    pub table_names: Vec<&'static str>,
    pub row_index: usize,
    pub table: &'static str,
}

impl TypeDefOrRef {
    /// The tables that the tags stand for, in the order of the tags.
    pub open spec fn spec_names() -> Seq<&'static str> {
        seq!["TypeDef", "TypeRef", "TypeSpec"]
    }

    /// The tables that the tags stand for, in the order of the tags.
    pub fn names() -> (r: Vec<&'static str>)
        ensures
            r@ == Self::spec_names(),
    {
        let mut names: Vec<&'static str> = Vec::new();
        names.push("TypeDef");
        names.push("TypeRef");
        names.push("TypeSpec");
        assert(names@ =~= Self::spec_names());
        names
    }
}

impl Default for TypeDefOrRef {
    /// The reference to no row, with the tag bits and the tables of the kind.
    fn default() -> (r: Self)
        ensures
            r.tag_bits == 2,
            r.table_names@ == Self::spec_names(),
            r.row_index == 0,
            r.table@.len() == 0,
    {
        proof {
            reveal_strlit("");
        }
        Self { tag_bits: 2, table_names: Self::names(), row_index: 0, table: "" }
    }
}

impl CodedIndex for TypeDefOrRef {
    open spec fn spec_tag_bits(&self) -> usize {
        self.tag_bits
    }

    open spec fn spec_table_names(&self) -> Seq<&'static str> {
        self.table_names@
    }

    open spec fn spec_row_index(&self) -> usize {
        self.row_index
    }

    open spec fn spec_table(&self) -> &'static str {
        self.table
    }

    fn set_row_index(&mut self, value: usize) {
        self.row_index = value;
    }

    fn set_table(&mut self, value: &'static str) {
        self.table = value;
    }

    fn get_table_name(&self, index: usize) -> (r: Result<&'static str>) {
        if index < self.table_names.len() {
            Ok(self.table_names[index])
        } else {
            Err(Error::CodedIndexWithUndefinedTable("Unused"))
        }
    }

    fn get_tag_bits(&self) -> (r: usize) {
        self.tag_bits
    }

    fn row_index(&self) -> (r: usize) {
        self.row_index
    }

    fn table(&self) -> (r: &'static str) {
        self.table
    }
}
/// What a member reference belongs to.
#[derive(Debug, Clone)]
pub struct MemberRefParent {
    pub tag_bits: usize,
    pub table_names: Vec<&'static str>,
    pub row_index: usize,
    pub table: &'static str,
}

impl MemberRefParent {
    /// The tables that the tags stand for, in the order of the tags.
    pub open spec fn spec_names() -> Seq<&'static str> {
        seq!["TypeDef", "TypeRef", "ModuleRef", "MethodDef", "TypeSpec"]
    }

    /// The tables that the tags stand for, in the order of the tags.
    pub fn names() -> (r: Vec<&'static str>)
        ensures
            r@ == Self::spec_names(),
    {
        let mut names: Vec<&'static str> = Vec::new();
        names.push("TypeDef");
        names.push("TypeRef");
        names.push("ModuleRef");
        names.push("MethodDef");
        names.push("TypeSpec");
        assert(names@ =~= Self::spec_names());
        names
    }
}

impl Default for MemberRefParent {
    /// The reference to no row, with the tag bits and the tables of the kind.
    fn default() -> (r: Self)
        ensures
            r.tag_bits == 3,
            r.table_names@ == Self::spec_names(),
            r.row_index == 0,
            r.table@.len() == 0,
    {
        proof {
            reveal_strlit("");
        }
        Self { tag_bits: 3, table_names: Self::names(), row_index: 0, table: "" }
    }
}

impl CodedIndex for MemberRefParent {
    open spec fn spec_tag_bits(&self) -> usize {
        self.tag_bits
    }

    open spec fn spec_table_names(&self) -> Seq<&'static str> {
        self.table_names@
    }

    open spec fn spec_row_index(&self) -> usize {
        self.row_index
    }

    open spec fn spec_table(&self) -> &'static str {
        self.table
    }

    fn set_row_index(&mut self, value: usize) {
        self.row_index = value;
    }

    fn set_table(&mut self, value: &'static str) {
        self.table = value;
    }

    fn get_table_name(&self, index: usize) -> (r: Result<&'static str>) {
        if index < self.table_names.len() {
            Ok(self.table_names[index])
        } else {
            Err(Error::CodedIndexWithUndefinedTable("Unused"))
        }
    }

    fn get_tag_bits(&self) -> (r: usize) {
        self.tag_bits
    }

    fn row_index(&self) -> (r: usize) {
        self.row_index
    }

    fn table(&self) -> (r: &'static str) {
        self.table
    }
}
/// What a constant belongs to.
#[derive(Debug, Clone)]
pub struct HasConstant {
    pub tag_bits: usize,
    pub table_names: Vec<&'static str>,
    pub row_index: usize,
    pub table: &'static str,
}

impl HasConstant {
    /// The tables that the tags stand for, in the order of the tags.
    pub open spec fn spec_names() -> Seq<&'static str> {
        seq!["Field", "Param", "Property"]
    }

    /// The tables that the tags stand for, in the order of the tags.
    pub fn names() -> (r: Vec<&'static str>)
        ensures
            r@ == Self::spec_names(),
    {
        let mut names: Vec<&'static str> = Vec::new();
        names.push("Field");
        names.push("Param");
        names.push("Property");
        assert(names@ =~= Self::spec_names());
        names
    }
}

impl Default for HasConstant {
    /// The reference to no row, with the tag bits and the tables of the kind.
    fn default() -> (r: Self)
        ensures
            r.tag_bits == 2,
            r.table_names@ == Self::spec_names(),
            r.row_index == 0,
            r.table@.len() == 0,
    {
        proof {
            reveal_strlit("");
        }
        Self { tag_bits: 2, table_names: Self::names(), row_index: 0, table: "" }
    }
}

impl CodedIndex for HasConstant {
    open spec fn spec_tag_bits(&self) -> usize {
        self.tag_bits
    }

    open spec fn spec_table_names(&self) -> Seq<&'static str> {
        self.table_names@
    }

    open spec fn spec_row_index(&self) -> usize {
        self.row_index
    }

    open spec fn spec_table(&self) -> &'static str {
        self.table
    }

    fn set_row_index(&mut self, value: usize) {
        self.row_index = value;
    }

    fn set_table(&mut self, value: &'static str) {
        self.table = value;
    }

    fn get_table_name(&self, index: usize) -> (r: Result<&'static str>) {
        if index < self.table_names.len() {
            Ok(self.table_names[index])
        } else {
            Err(Error::CodedIndexWithUndefinedTable("Unused"))
        }
    }

    fn get_tag_bits(&self) -> (r: usize) {
        self.tag_bits
    }

    fn row_index(&self) -> (r: usize) {
        self.row_index
    }

    fn table(&self) -> (r: &'static str) {
        self.table
    }
}
/// What a custom attribute is attached to.
#[derive(Debug, Clone)]
pub struct HasCustomAttribute {
    pub tag_bits: usize,
    pub table_names: Vec<&'static str>,
    pub row_index: usize,
    pub table: &'static str,
}

impl HasCustomAttribute {
    /// The tables that the tags stand for, in the order of the tags.
    pub open spec fn spec_names() -> Seq<&'static str> {
        seq![
            "MethodDef",
            "Field",
            "TypeRef",
            "TypeDef",
            "Param",
            "InterfaceImpl",
            "MemberRef",
            "Module",
            "DeclSecurity",
            "Property",
            "Event",
            "StandAloneSig",
            "ModuleRef",
            "TypeSpec",
            "Assembly",
            "AssemblyRef",
            "File",
            "ExportedType",
            "ManifestResource",
            "GenericParam",
            "GenericParamConstraint",
        ]
    }

    /// The tables that the tags stand for, in the order of the tags.
    pub fn names() -> (r: Vec<&'static str>)
        ensures
            r@ == Self::spec_names(),
    {
        let mut names: Vec<&'static str> = Vec::new();
        names.push("MethodDef");
        names.push("Field");
        names.push("TypeRef");
        names.push("TypeDef");
        names.push("Param");
        names.push("InterfaceImpl");
        names.push("MemberRef");
        names.push("Module");
        names.push("DeclSecurity");
        names.push("Property");
        names.push("Event");
        names.push("StandAloneSig");
        names.push("ModuleRef");
        names.push("TypeSpec");
        names.push("Assembly");
        names.push("AssemblyRef");
        names.push("File");
        names.push("ExportedType");
        names.push("ManifestResource");
        names.push("GenericParam");
        names.push("GenericParamConstraint");
        assert(names@ =~= Self::spec_names());
        names
    }
}

impl Default for HasCustomAttribute {
    /// The reference to no row, with the tag bits and the tables of the kind.
    fn default() -> (r: Self)
        ensures
            r.tag_bits == 5,
            r.table_names@ == Self::spec_names(),
            r.row_index == 0,
            r.table@.len() == 0,
    {
        proof {
            reveal_strlit("");
        }
        Self { tag_bits: 5, table_names: Self::names(), row_index: 0, table: "" }
    }
}

impl CodedIndex for HasCustomAttribute {
    open spec fn spec_tag_bits(&self) -> usize {
        self.tag_bits
    }

    open spec fn spec_table_names(&self) -> Seq<&'static str> {
        self.table_names@
    }

    open spec fn spec_row_index(&self) -> usize {
        self.row_index
    }

    open spec fn spec_table(&self) -> &'static str {
        self.table
    }

    fn set_row_index(&mut self, value: usize) {
        self.row_index = value;
    }

    fn set_table(&mut self, value: &'static str) {
        self.table = value;
    }

    fn get_table_name(&self, index: usize) -> (r: Result<&'static str>) {
        if index < self.table_names.len() {
            Ok(self.table_names[index])
        } else {
            Err(Error::CodedIndexWithUndefinedTable("Unused"))
        }
    }

    fn get_tag_bits(&self) -> (r: usize) {
        self.tag_bits
    }

    fn row_index(&self) -> (r: usize) {
        self.row_index
    }

    fn table(&self) -> (r: &'static str) {
        self.table
    }
}
/// The constructor of a custom attribute.
#[derive(Debug, Clone)]
pub struct CustomAttributeType {
    pub tag_bits: usize,
    pub table_names: Vec<&'static str>,
    pub row_index: usize,
    pub table: &'static str,
}

impl CustomAttributeType {
    /// The tables that the tags stand for, in the order of the tags.
    pub open spec fn spec_names() -> Seq<&'static str> {
        seq!["Unused", "Unused", "MethodDef", "MemberRef", "Unused"]
    }

    /// The tables that the tags stand for, in the order of the tags.
    pub fn names() -> (r: Vec<&'static str>)
        ensures
            r@ == Self::spec_names(),
    {
        let mut names: Vec<&'static str> = Vec::new();
        names.push("Unused");
        names.push("Unused");
        names.push("MethodDef");
        names.push("MemberRef");
        names.push("Unused");
        assert(names@ =~= Self::spec_names());
        names
    }
}

impl Default for CustomAttributeType {
    /// The reference to no row, with the tag bits and the tables of the kind.
    fn default() -> (r: Self)
        ensures
            r.tag_bits == 3,
            r.table_names@ == Self::spec_names(),
            r.row_index == 0,
            r.table@.len() == 0,
    {
        proof {
            reveal_strlit("");
        }
        Self { tag_bits: 3, table_names: Self::names(), row_index: 0, table: "" }
    }
}

impl CodedIndex for CustomAttributeType {
    open spec fn spec_tag_bits(&self) -> usize {
        self.tag_bits
    }

    open spec fn spec_table_names(&self) -> Seq<&'static str> {
        self.table_names@
    }

    open spec fn spec_row_index(&self) -> usize {
        self.row_index
    }

    open spec fn spec_table(&self) -> &'static str {
        self.table
    }

    fn set_row_index(&mut self, value: usize) {
        self.row_index = value;
    }

    fn set_table(&mut self, value: &'static str) {
        self.table = value;
    }

    fn get_table_name(&self, index: usize) -> (r: Result<&'static str>) {
        if index < self.table_names.len() {
            Ok(self.table_names[index])
        } else {
            Err(Error::CodedIndexWithUndefinedTable("Unused"))
        }
    }

    fn get_tag_bits(&self) -> (r: usize) {
        self.tag_bits
    }

    fn row_index(&self) -> (r: usize) {
        self.row_index
    }

    fn table(&self) -> (r: &'static str) {
        self.table
    }
}
/// What a marshalling descriptor belongs to.
#[derive(Debug, Clone)]
pub struct HasFieldMarshall {
    pub tag_bits: usize,
    pub table_names: Vec<&'static str>,
    pub row_index: usize,
    pub table: &'static str,
}

impl HasFieldMarshall {
    /// The tables that the tags stand for, in the order of the tags.
    pub open spec fn spec_names() -> Seq<&'static str> {
        seq!["Field", "Param"]
    }

    /// The tables that the tags stand for, in the order of the tags.
    pub fn names() -> (r: Vec<&'static str>)
        ensures
            r@ == Self::spec_names(),
    {
        let mut names: Vec<&'static str> = Vec::new();
        names.push("Field");
        names.push("Param");
        assert(names@ =~= Self::spec_names());
        names
    }
}

impl Default for HasFieldMarshall {
    /// The reference to no row, with the tag bits and the tables of the kind.
    fn default() -> (r: Self)
        ensures
            r.tag_bits == 1,
            r.table_names@ == Self::spec_names(),
            r.row_index == 0,
            r.table@.len() == 0,
    {
        proof {
            reveal_strlit("");
        }
        Self { tag_bits: 1, table_names: Self::names(), row_index: 0, table: "" }
    }
}

impl CodedIndex for HasFieldMarshall {
    open spec fn spec_tag_bits(&self) -> usize {
        self.tag_bits
    }

    open spec fn spec_table_names(&self) -> Seq<&'static str> {
        self.table_names@
    }

    open spec fn spec_row_index(&self) -> usize {
        self.row_index
    }

    open spec fn spec_table(&self) -> &'static str {
        self.table
    }

    fn set_row_index(&mut self, value: usize) {
        self.row_index = value;
    }

    fn set_table(&mut self, value: &'static str) {
        self.table = value;
    }

    fn get_table_name(&self, index: usize) -> (r: Result<&'static str>) {
        if index < self.table_names.len() {
            Ok(self.table_names[index])
        } else {
            Err(Error::CodedIndexWithUndefinedTable("Unused"))
        }
    }

    fn get_tag_bits(&self) -> (r: usize) {
        self.tag_bits
    }

    fn row_index(&self) -> (r: usize) {
        self.row_index
    }

    fn table(&self) -> (r: &'static str) {
        self.table
    }
}
/// What a security declaration belongs to.
#[derive(Debug, Clone)]
pub struct HasDeclSecurity {
    pub tag_bits: usize,
    pub table_names: Vec<&'static str>,
    pub row_index: usize,
    pub table: &'static str,
}

impl HasDeclSecurity {
    /// The tables that the tags stand for, in the order of the tags.
    pub open spec fn spec_names() -> Seq<&'static str> {
        seq!["TypeDef", "MethodDef", "Assembly"]
    }

    /// The tables that the tags stand for, in the order of the tags.
    pub fn names() -> (r: Vec<&'static str>)
        ensures
            r@ == Self::spec_names(),
    {
        let mut names: Vec<&'static str> = Vec::new();
        names.push("TypeDef");
        names.push("MethodDef");
        names.push("Assembly");
        assert(names@ =~= Self::spec_names());
        names
    }
}

impl Default for HasDeclSecurity {
    /// The reference to no row, with the tag bits and the tables of the kind.
    fn default() -> (r: Self)
        ensures
            r.tag_bits == 2,
            r.table_names@ == Self::spec_names(),
            r.row_index == 0,
            r.table@.len() == 0,
    {
        proof {
            reveal_strlit("");
        }
        Self { tag_bits: 2, table_names: Self::names(), row_index: 0, table: "" }
    }
}

impl CodedIndex for HasDeclSecurity {
    open spec fn spec_tag_bits(&self) -> usize {
        self.tag_bits
    }

    open spec fn spec_table_names(&self) -> Seq<&'static str> {
        self.table_names@
    }

    open spec fn spec_row_index(&self) -> usize {
        self.row_index
    }

    open spec fn spec_table(&self) -> &'static str {
        self.table
    }

    fn set_row_index(&mut self, value: usize) {
        self.row_index = value;
    }

    fn set_table(&mut self, value: &'static str) {
        self.table = value;
    }

    fn get_table_name(&self, index: usize) -> (r: Result<&'static str>) {
        if index < self.table_names.len() {
            Ok(self.table_names[index])
        } else {
            Err(Error::CodedIndexWithUndefinedTable("Unused"))
        }
    }

    fn get_tag_bits(&self) -> (r: usize) {
        self.tag_bits
    }

    fn row_index(&self) -> (r: usize) {
        self.row_index
    }

    fn table(&self) -> (r: &'static str) {
        self.table
    }
}
/// What a method is the accessor of.
#[derive(Debug, Clone)]
pub struct HasSemantics {
    pub tag_bits: usize,
    pub table_names: Vec<&'static str>,
    pub row_index: usize,
    pub table: &'static str,
}

impl HasSemantics {
    /// The tables that the tags stand for, in the order of the tags.
    pub open spec fn spec_names() -> Seq<&'static str> {
        seq!["Event", "Property"]
    }

    /// The tables that the tags stand for, in the order of the tags.
    pub fn names() -> (r: Vec<&'static str>)
        ensures
            r@ == Self::spec_names(),
    {
        let mut names: Vec<&'static str> = Vec::new();
        names.push("Event");
        names.push("Property");
        assert(names@ =~= Self::spec_names());
        names
    }
}

impl Default for HasSemantics {
    /// The reference to no row, with the tag bits and the tables of the kind.
    fn default() -> (r: Self)
        ensures
            r.tag_bits == 1,
            r.table_names@ == Self::spec_names(),
            r.row_index == 0,
            r.table@.len() == 0,
    {
        proof {
            reveal_strlit("");
        }
        Self { tag_bits: 1, table_names: Self::names(), row_index: 0, table: "" }
    }
}

impl CodedIndex for HasSemantics {
    open spec fn spec_tag_bits(&self) -> usize {
        self.tag_bits
    }

    open spec fn spec_table_names(&self) -> Seq<&'static str> {
        self.table_names@
    }

    open spec fn spec_row_index(&self) -> usize {
        self.row_index
    }

    open spec fn spec_table(&self) -> &'static str {
        self.table
    }

    fn set_row_index(&mut self, value: usize) {
        self.row_index = value;
    }

    fn set_table(&mut self, value: &'static str) {
        self.table = value;
    }

    fn get_table_name(&self, index: usize) -> (r: Result<&'static str>) {
        if index < self.table_names.len() {
            Ok(self.table_names[index])
        } else {
            Err(Error::CodedIndexWithUndefinedTable("Unused"))
        }
    }

    fn get_tag_bits(&self) -> (r: usize) {
        self.tag_bits
    }

    fn row_index(&self) -> (r: usize) {
        self.row_index
    }

    fn table(&self) -> (r: &'static str) {
        self.table
    }
}
/// A method, defined here or referred to.
#[derive(Debug, Clone)]
pub struct MethodDefOrRef {
    pub tag_bits: usize,
    pub table_names: Vec<&'static str>,
    pub row_index: usize,
    pub table: &'static str,
}

impl MethodDefOrRef {
    /// The tables that the tags stand for, in the order of the tags.
    pub open spec fn spec_names() -> Seq<&'static str> {
        seq!["MethodDef", "MemberRef"]
    }

    /// The tables that the tags stand for, in the order of the tags.
    pub fn names() -> (r: Vec<&'static str>)
        ensures
            r@ == Self::spec_names(),
    {
        let mut names: Vec<&'static str> = Vec::new();
        names.push("MethodDef");
        names.push("MemberRef");
        assert(names@ =~= Self::spec_names());
        names
    }
}

impl Default for MethodDefOrRef {
    /// The reference to no row, with the tag bits and the tables of the kind.
    fn default() -> (r: Self)
        ensures
            r.tag_bits == 1,
            r.table_names@ == Self::spec_names(),
            r.row_index == 0,
            r.table@.len() == 0,
    {
        proof {
            reveal_strlit("");
        }
        Self { tag_bits: 1, table_names: Self::names(), row_index: 0, table: "" }
    }
}

impl CodedIndex for MethodDefOrRef {
    open spec fn spec_tag_bits(&self) -> usize {
        self.tag_bits
    }

    open spec fn spec_table_names(&self) -> Seq<&'static str> {
        self.table_names@
    }

    open spec fn spec_row_index(&self) -> usize {
        self.row_index
    }

    open spec fn spec_table(&self) -> &'static str {
        self.table
    }

    fn set_row_index(&mut self, value: usize) {
        self.row_index = value;
    }

    fn set_table(&mut self, value: &'static str) {
        self.table = value;
    }

    fn get_table_name(&self, index: usize) -> (r: Result<&'static str>) {
        if index < self.table_names.len() {
            Ok(self.table_names[index])
        } else {
            Err(Error::CodedIndexWithUndefinedTable("Unused"))
        }
    }

    fn get_tag_bits(&self) -> (r: usize) {
        self.tag_bits
    }

    fn row_index(&self) -> (r: usize) {
        self.row_index
    }

    fn table(&self) -> (r: &'static str) {
        self.table
    }
}
/// The member that a platform invoke forwards.
#[derive(Debug, Clone)]
pub struct MemberForwarded {
    pub tag_bits: usize,
    pub table_names: Vec<&'static str>,
    pub row_index: usize,
    pub table: &'static str,
}

impl MemberForwarded {
    /// The tables that the tags stand for, in the order of the tags.
    pub open spec fn spec_names() -> Seq<&'static str> {
        seq!["Field", "MethodDef"]
    }

    /// The tables that the tags stand for, in the order of the tags.
    pub fn names() -> (r: Vec<&'static str>)
        ensures
            r@ == Self::spec_names(),
    {
        let mut names: Vec<&'static str> = Vec::new();
        names.push("Field");
        names.push("MethodDef");
        assert(names@ =~= Self::spec_names());
        names
    }
}

impl Default for MemberForwarded {
    /// The reference to no row, with the tag bits and the tables of the kind.
    fn default() -> (r: Self)
        ensures
            r.tag_bits == 1,
            r.table_names@ == Self::spec_names(),
            r.row_index == 0,
            r.table@.len() == 0,
    {
        proof {
            reveal_strlit("");
        }
        Self { tag_bits: 1, table_names: Self::names(), row_index: 0, table: "" }
    }
}

impl CodedIndex for MemberForwarded {
    open spec fn spec_tag_bits(&self) -> usize {
        self.tag_bits
    }

    open spec fn spec_table_names(&self) -> Seq<&'static str> {
        self.table_names@
    }

    open spec fn spec_row_index(&self) -> usize {
        self.row_index
    }

    open spec fn spec_table(&self) -> &'static str {
        self.table
    }

    fn set_row_index(&mut self, value: usize) {
        self.row_index = value;
    }

    fn set_table(&mut self, value: &'static str) {
        self.table = value;
    }

    fn get_table_name(&self, index: usize) -> (r: Result<&'static str>) {
        if index < self.table_names.len() {
            Ok(self.table_names[index])
        } else {
            Err(Error::CodedIndexWithUndefinedTable("Unused"))
        }
    }

    fn get_tag_bits(&self) -> (r: usize) {
        self.tag_bits
    }

    fn row_index(&self) -> (r: usize) {
        self.row_index
    }

    fn table(&self) -> (r: &'static str) {
        self.table
    }
}
/// Where an exported type or a resource is implemented.
#[derive(Debug, Clone)]
pub struct Implementation {
    pub tag_bits: usize,
    pub table_names: Vec<&'static str>,
    pub row_index: usize,
    pub table: &'static str,
}

impl Implementation {
    /// The tables that the tags stand for, in the order of the tags.
    pub open spec fn spec_names() -> Seq<&'static str> {
        seq!["File", "AssemblyRef", "ExportedType"]
    }

    /// The tables that the tags stand for, in the order of the tags.
    pub fn names() -> (r: Vec<&'static str>)
        ensures
            r@ == Self::spec_names(),
    {
        let mut names: Vec<&'static str> = Vec::new();
        names.push("File");
        names.push("AssemblyRef");
        names.push("ExportedType");
        assert(names@ =~= Self::spec_names());
        names
    }
}

impl Default for Implementation {
    /// The reference to no row, with the tag bits and the tables of the kind.
    fn default() -> (r: Self)
        ensures
            r.tag_bits == 2,
            r.table_names@ == Self::spec_names(),
            r.row_index == 0,
            r.table@.len() == 0,
    {
        proof {
            reveal_strlit("");
        }
        Self { tag_bits: 2, table_names: Self::names(), row_index: 0, table: "" }
    }
}

impl CodedIndex for Implementation {
    open spec fn spec_tag_bits(&self) -> usize {
        self.tag_bits
    }

    open spec fn spec_table_names(&self) -> Seq<&'static str> {
        self.table_names@
    }

    open spec fn spec_row_index(&self) -> usize {
        self.row_index
    }

    open spec fn spec_table(&self) -> &'static str {
        self.table
    }

    fn set_row_index(&mut self, value: usize) {
        self.row_index = value;
    }

    fn set_table(&mut self, value: &'static str) {
        self.table = value;
    }

    fn get_table_name(&self, index: usize) -> (r: Result<&'static str>) {
        if index < self.table_names.len() {
            Ok(self.table_names[index])
        } else {
            Err(Error::CodedIndexWithUndefinedTable("Unused"))
        }
    }

    fn get_tag_bits(&self) -> (r: usize) {
        self.tag_bits
    }

    fn row_index(&self) -> (r: usize) {
        self.row_index
    }

    fn table(&self) -> (r: &'static str) {
        self.table
    }
}
/// The owner of a generic parameter.
#[derive(Debug, Clone)]
pub struct TypeOrMethodDef {
    pub tag_bits: usize,
    pub table_names: Vec<&'static str>,
    pub row_index: usize,
    pub table: &'static str,
}

impl TypeOrMethodDef {
    /// The tables that the tags stand for, in the order of the tags.
    pub open spec fn spec_names() -> Seq<&'static str> {
        seq!["TypeDef", "MethodDef"]
    }

    /// The tables that the tags stand for, in the order of the tags.
    pub fn names() -> (r: Vec<&'static str>)
        ensures
            r@ == Self::spec_names(),
    {
        let mut names: Vec<&'static str> = Vec::new();
        names.push("TypeDef");
        names.push("MethodDef");
        assert(names@ =~= Self::spec_names());
        names
    }
}

impl Default for TypeOrMethodDef {
    /// The reference to no row, with the tag bits and the tables of the kind.
    fn default() -> (r: Self)
        ensures
            r.tag_bits == 1,
            r.table_names@ == Self::spec_names(),
            r.row_index == 0,
            r.table@.len() == 0,
    {
        proof {
            reveal_strlit("");
        }
        Self { tag_bits: 1, table_names: Self::names(), row_index: 0, table: "" }
    }
}

impl CodedIndex for TypeOrMethodDef {
    open spec fn spec_tag_bits(&self) -> usize {
        self.tag_bits
    }

    open spec fn spec_table_names(&self) -> Seq<&'static str> {
        self.table_names@
    }

    open spec fn spec_row_index(&self) -> usize {
        self.row_index
    }

    open spec fn spec_table(&self) -> &'static str {
        self.table
    }

    fn set_row_index(&mut self, value: usize) {
        self.row_index = value;
    }

    fn set_table(&mut self, value: &'static str) {
        self.table = value;
    }

    fn get_table_name(&self, index: usize) -> (r: Result<&'static str>) {
        if index < self.table_names.len() {
            Ok(self.table_names[index])
        } else {
            Err(Error::CodedIndexWithUndefinedTable("Unused"))
        }
    }

    fn get_tag_bits(&self) -> (r: usize) {
        self.tag_bits
    }

    fn row_index(&self) -> (r: usize) {
        self.row_index
    }

    fn table(&self) -> (r: &'static str) {
        self.table
    }
}
/// The kinds of coded index that the format defines.
#[derive(Debug, Clone, Copy, PartialEq, Eq, Structural)]
pub enum CodedKind {
    ResolutionScope,
    TypeDefOrRef,
    MemberRefParent,
    HasConstant,
    HasCustomAttribute,
    CustomAttributeType,
    HasFieldMarshall,
    HasDeclSecurity,
    HasSemantics,
    MethodDefOrRef,
    MemberForwarded,
    Implementation,
    TypeOrMethodDef,
}

impl CodedKind {
    /// The number of tag bits of the kind.
    pub open spec fn spec_tag_bits(self) -> usize {
        match self {
            CodedKind::ResolutionScope => 2,
            CodedKind::TypeDefOrRef => 2,
            CodedKind::MemberRefParent => 3,
            CodedKind::HasConstant => 2,
            CodedKind::HasCustomAttribute => 5,
            CodedKind::CustomAttributeType => 3,
            CodedKind::HasFieldMarshall => 1,
            CodedKind::HasDeclSecurity => 2,
            CodedKind::HasSemantics => 1,
            CodedKind::MethodDefOrRef => 1,
            CodedKind::MemberForwarded => 1,
            CodedKind::Implementation => 2,
            CodedKind::TypeOrMethodDef => 1,
        }
    }

    /// The tables of the kind, in the order of the tags.
    pub open spec fn spec_names(self) -> Seq<&'static str> {
        match self {
            CodedKind::ResolutionScope => ResolutionScope::spec_names(),
            CodedKind::TypeDefOrRef => TypeDefOrRef::spec_names(),
            CodedKind::MemberRefParent => MemberRefParent::spec_names(),
            CodedKind::HasConstant => HasConstant::spec_names(),
            CodedKind::HasCustomAttribute => HasCustomAttribute::spec_names(),
            CodedKind::CustomAttributeType => CustomAttributeType::spec_names(),
            CodedKind::HasFieldMarshall => HasFieldMarshall::spec_names(),
            CodedKind::HasDeclSecurity => HasDeclSecurity::spec_names(),
            CodedKind::HasSemantics => HasSemantics::spec_names(),
            CodedKind::MethodDefOrRef => MethodDefOrRef::spec_names(),
            CodedKind::MemberForwarded => MemberForwarded::spec_names(),
            CodedKind::Implementation => Implementation::spec_names(),
            CodedKind::TypeOrMethodDef => TypeOrMethodDef::spec_names(),
        }
    }

    /// The number of tag bits of the kind.
    pub fn tag_bits(self) -> (r: usize)
        ensures
            r == self.spec_tag_bits(),
            r <= MAX_TAG_BITS,
    {
        match self {
            CodedKind::ResolutionScope => 2,
            CodedKind::TypeDefOrRef => 2,
            CodedKind::MemberRefParent => 3,
            CodedKind::HasConstant => 2,
            CodedKind::HasCustomAttribute => 5,
            CodedKind::CustomAttributeType => 3,
            CodedKind::HasFieldMarshall => 1,
            CodedKind::HasDeclSecurity => 2,
            CodedKind::HasSemantics => 1,
            CodedKind::MethodDefOrRef => 1,
            CodedKind::MemberForwarded => 1,
            CodedKind::Implementation => 2,
            CodedKind::TypeOrMethodDef => 1,
        }
    }

    /// The tables of the kind, in the order of the tags.
    pub fn names(self) -> (r: Vec<&'static str>)
        ensures
            r@ == self.spec_names(),
    {
        match self {
            CodedKind::ResolutionScope => ResolutionScope::names(),
            CodedKind::TypeDefOrRef => TypeDefOrRef::names(),
            CodedKind::MemberRefParent => MemberRefParent::names(),
            CodedKind::HasConstant => HasConstant::names(),
            CodedKind::HasCustomAttribute => HasCustomAttribute::names(),
            CodedKind::CustomAttributeType => CustomAttributeType::names(),
            CodedKind::HasFieldMarshall => HasFieldMarshall::names(),
            CodedKind::HasDeclSecurity => HasDeclSecurity::names(),
            CodedKind::HasSemantics => HasSemantics::names(),
            CodedKind::MethodDefOrRef => MethodDefOrRef::names(),
            CodedKind::MemberForwarded => MemberForwarded::names(),
            CodedKind::Implementation => Implementation::names(),
            CodedKind::TypeOrMethodDef => TypeOrMethodDef::names(),
        }
    }
}

} // verus!
