//! What the `EntSchema` derive generates for a struct, as plain values: the
//! name of the module of field types, one field type per struct field, and
//! the primary key.
use vstd::prelude::*;

use convert_case::Casing;

verus! {

/// What `str::to_case(Case::Snake)` of convert_case returns for `s`.
pub uninterp spec fn snake_case_of(s: Seq<char>) -> Seq<char>;

/// What `str::to_case(Case::Pascal)` of convert_case returns for `s`.
pub uninterp spec fn pascal_case_of(s: Seq<char>) -> Seq<char>;

/// convert_case's `to_case(Case::Snake)`: `s` in snake_case. The result is
/// named, not described: it depends on `s` alone.
#[verifier::external_body]
fn to_snake_case(s: &str) -> (r: String)
    ensures
        r@ == snake_case_of(s@),
{
    s.to_case(convert_case::Case::Snake)
}

/// convert_case's `to_case(Case::Pascal)`: `s` in PascalCase. The result is
/// named, not described: it depends on `s` alone.
#[verifier::external_body]
fn to_pascal_case(s: &str) -> (r: String)
    ensures
        r@ == pascal_case_of(s@),
{
    s.to_case(convert_case::Case::Pascal)
}

/// A field of the struct, with the options of its `#[field(...)]` attribute.
pub struct EntStructField {
    /// The field's name, which is also its column's name.
    pub ident: String,
    /// `#[field(readonly)]`: mutations cannot change the field.
    pub readonly: bool,
    /// `#[field(primary_key)]`: the field is (part of) the primary key.
    pub primary_key: bool,
}

/// The visibility type that a field type gets.
#[derive(Clone, Copy, PartialEq, Eq, Structural)]
pub enum FieldVisibilityKind {
    ReadOnly,
    ReadWrite,
}

/// The field type generated for a struct field.
pub struct FieldDef {
    /// The name of the generated type: the field's name in PascalCase.
    pub struct_name: String,
    /// The column name: the field's name.
    pub column: String,
    pub visibility: FieldVisibilityKind,
}

/// The primary key: one field type, or a tuple of them.
pub enum PrimaryKeyDef {
    Single(String),
    Composite(Vec<String>),
}

/// Everything the derive generates for a struct.
pub struct EntSchemaPlan {
    /// The module holding the field types: the struct's name in snake_case.
    pub module_name: String,
    pub table: String,
    /// One field type per struct field, in order.
    pub fields: Vec<FieldDef>,
    pub primary_key: PrimaryKeyDef,
}

/// Why the derive refuses a struct.
#[derive(Clone, Copy, PartialEq, Eq, Structural)]
pub enum EntSchemaError {
    /// The item is not a struct with named fields.
    NotNamedStruct,
    /// No field is marked `#[field(primary_key)]`.
    NoPrimaryKey,
}

impl EntSchemaError {
    /// The message of the compile error.
    pub fn message(&self) -> (r: &'static str)
        ensures
            *self == EntSchemaError::NotNamedStruct ==> r@
                == "EntSchema can only be derived for structs with named fields"@,
            *self == EntSchemaError::NoPrimaryKey ==> r@
                == "At least one field must be marked as primary_key"@,
    {
        match self {
            EntSchemaError::NotNamedStruct => "EntSchema can only be derived for structs with named fields",
            EntSchemaError::NoPrimaryKey => "At least one field must be marked as primary_key",
        }
    }
}

/// The visibility a field gets.
pub open spec fn spec_visibility(readonly: bool) -> FieldVisibilityKind {
    if readonly {
        FieldVisibilityKind::ReadOnly
    } else {
        FieldVisibilityKind::ReadWrite
    }
}

/// The names of the field types of the primary key fields, in order:
/// `defs[i]` is the field type of `fields[i]`.
pub open spec fn spec_primary_key_names(
    fields: Seq<EntStructField>,
    defs: Seq<FieldDef>,
) -> Seq<Seq<char>>
    decreases fields.len(),
{
    if fields.len() == 0 {
        Seq::empty()
    } else {
        let rest = spec_primary_key_names(fields.drop_last(), defs.drop_last());
        if fields.last().primary_key {
            rest.push(defs.last().struct_name@)
        } else {
            rest
        }
    }
}

/// Whether some field is marked as part of the primary key.
pub open spec fn has_primary_key(fields: Seq<EntStructField>) -> bool {
    exists|i: int| 0 <= i < fields.len() && #[trigger] fields[i].primary_key
}

/// Whether `def` is the field type generated for `field`.
pub open spec fn is_field_def(field: EntStructField, def: FieldDef) -> bool {
    &&& def.struct_name@ == pascal_case_of(field.ident@)
    &&& def.column@ == field.ident@
    &&& def.visibility == spec_visibility(field.readonly)
}

/// Whether `def` is the primary key of the key fields whose type names are
/// `names`: the one type alone, or the tuple of several.
pub open spec fn is_primary_key_def(def: PrimaryKeyDef, names: Seq<Seq<char>>) -> bool {
    match def {
        PrimaryKeyDef::Single(n) => names.len() == 1 && n@ == names[0],
        PrimaryKeyDef::Composite(ns) => names.len() > 1 && ns@.map_values(|s: String| s@)
            == names,
    }
}

impl EntStructField {
    /// The name of the field's generated type: its name in PascalCase.
    pub fn struct_name(&self) -> (r: String)
        ensures
            r@ == pascal_case_of(self.ident@),
    {
        to_pascal_case(self.ident.as_str())
    }

    /// The field type generated for this field.
    pub fn ent_field_def(&self) -> (r: FieldDef)
        ensures
            is_field_def(*self, r),
    {
        let visibility = if self.readonly {
            FieldVisibilityKind::ReadOnly
        } else {
            FieldVisibilityKind::ReadWrite
        };
        FieldDef { struct_name: self.struct_name(), column: self.ident.clone(), visibility }
    }
}

proof fn lemma_no_primary_key_names(fields: Seq<EntStructField>, defs: Seq<FieldDef>)
    requires
        fields.len() == defs.len(),
    ensures
        spec_primary_key_names(fields, defs).len() == 0 <==> !has_primary_key(fields),
    decreases fields.len(),
{
    if fields.len() > 0 {
        let init = fields.drop_last();
        lemma_no_primary_key_names(init, defs.drop_last());
        if has_primary_key(init) {
            let i = choose|i: int| 0 <= i < init.len() && #[trigger] init[i].primary_key;
            assert(fields[i].primary_key);
        }
        if has_primary_key(fields) && !fields.last().primary_key {
            let i = choose|i: int| 0 <= i < fields.len() && #[trigger] fields[i].primary_key;
            assert(init[i].primary_key);
        }
        if fields.last().primary_key {
            assert(fields[fields.len() - 1].primary_key);
        }
    }
}

/// What the derive generates for a struct whose module of field types is
/// `module_name`, stored in `table`, with the fields `fields` whose field
/// types are `defs`: refused when no field is part of the primary key.
pub fn plan_ent_schema(
    module_name: String,
    table: &str,
    fields: &Vec<EntStructField>,
    defs: Vec<FieldDef>,
) -> (r: Result<EntSchemaPlan, EntSchemaError>)
    requires
        fields@.len() == defs@.len(),
    ensures
        r is Err <==> !has_primary_key(fields@),
        r is Err ==> r == Err::<EntSchemaPlan, EntSchemaError>(EntSchemaError::NoPrimaryKey),
        r matches Ok(plan) ==> {
            &&& plan.module_name == module_name
            &&& plan.table@ == table@
            &&& plan.fields@ == defs@
            &&& is_primary_key_def(plan.primary_key, spec_primary_key_names(fields@, defs@))
        },
{
    let mut keys: Vec<String> = Vec::new();
    let mut i: usize = 0;
    while i < fields.len()
        invariant
            i <= fields@.len(),
            fields@.len() == defs@.len(),
            keys@.map_values(|s: String| s@) == spec_primary_key_names(
                fields@.take(i as int),
                defs@.take(i as int),
            ),
        decreases fields@.len() - i,
    {
        let ghost old_keys = keys@;
        if fields[i].primary_key {
            keys.push(defs[i].struct_name.clone());
            assert(keys@.map_values(|s: String| s@) =~= old_keys.map_values(|s: String| s@).push(
                defs@[i as int].struct_name@,
            ));
        }
        assert(fields@.take(i as int + 1).drop_last() =~= fields@.take(i as int));
        assert(defs@.take(i as int + 1).drop_last() =~= defs@.take(i as int));
        i = i + 1;
    }
    assert(fields@.take(i as int) =~= fields@);
    assert(defs@.take(i as int) =~= defs@);
    proof {
        lemma_no_primary_key_names(fields@, defs@);
    }
    let n = keys.len();
    if n == 0 {
        return Err(EntSchemaError::NoPrimaryKey);
    }
    let primary_key = if n == 1 {
        let mut keys = keys;
        let k = keys.remove(0);
        assert(keys@.map_values(|s: String| s@).len() == 0);
        PrimaryKeyDef::Single(k)
    } else {
        PrimaryKeyDef::Composite(keys)
    };
    Ok(EntSchemaPlan { module_name, table: table.to_string(), fields: defs, primary_key })
}

/// What the `EntSchema` derive generates for the struct `name` with the
/// fields `fields`, stored in `table`: refused when the item is not a struct
/// with named fields (`named` is false), and when no field is part of the
/// primary key.
pub fn derive_ent_schema(
    name: &str,
    table: &str,
    named: bool,
    fields: &Vec<EntStructField>,
) -> (r: Result<EntSchemaPlan, EntSchemaError>)
    ensures
        !named ==> r == Err::<EntSchemaPlan, EntSchemaError>(EntSchemaError::NotNamedStruct),
        named ==> (r is Err <==> !has_primary_key(fields@)),
        named && r is Err ==> r == Err::<EntSchemaPlan, EntSchemaError>(EntSchemaError::NoPrimaryKey),
        r matches Ok(plan) ==> {
            &&& plan.module_name@ == snake_case_of(name@)
            &&& plan.table@ == table@
            &&& plan.fields@.len() == fields@.len()
            &&& forall|i: int|
                0 <= i < fields@.len() ==> is_field_def(fields@[i], #[trigger] plan.fields@[i])
            &&& is_primary_key_def(plan.primary_key, spec_primary_key_names(fields@, plan.fields@))
        },
{
    if !named {
        return Err(EntSchemaError::NotNamedStruct);
    }
    let mut defs: Vec<FieldDef> = Vec::new();
    let mut i: usize = 0;
    while i < fields.len()
        invariant
            i <= fields@.len(),
            defs@.len() == i,
            forall|j: int| 0 <= j < i ==> is_field_def(fields@[j], #[trigger] defs@[j]),
        decreases fields@.len() - i,
    {
        defs.push(fields[i].ent_field_def());
        i = i + 1;
    }
    let module_name = to_snake_case(name);
    plan_ent_schema(module_name, table, fields, defs)
}

} // verus!
