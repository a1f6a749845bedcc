//! Table schemas: an ordered list of named, typed, nullable fields.

use vstd::prelude::*;

verus! {

/// The primitive types a column can have.
#[derive(Clone, Copy, Debug, PartialEq, Eq, Structural)]
pub enum PrimitiveType {
    /// An instant, stored as microseconds since the Unix epoch.
    Timestamp,
    /// A 32-bit signed integer.
    Integer,
    /// A double-precision number.
    Double,
}

impl PrimitiveType {
    /// The tag under which the table engine knows the type.
    pub open spec fn tag(self) -> Seq<char> {
        match self {
            PrimitiveType::Timestamp => "timestamp"@,
            PrimitiveType::Integer => "integer"@,
            PrimitiveType::Double => "double"@,
        }
    }

    /// The tag under which the table engine knows the type.
    pub fn name(&self) -> (name: &'static str)
        ensures
            name@ == self.tag(),
    {
        match self {
            PrimitiveType::Timestamp => "timestamp",
            PrimitiveType::Integer => "integer",
            PrimitiveType::Double => "double",
        }
    }
}

/// The type that a tag names, if it names one.
pub open spec fn type_named(tag: Seq<char>) -> Option<PrimitiveType> {
    if tag == "timestamp"@ {
        Some(PrimitiveType::Timestamp)
    } else if tag == "integer"@ {
        Some(PrimitiveType::Integer)
    } else if tag == "double"@ {
        Some(PrimitiveType::Double)
    } else {
        None
    }
}

/// Each type is found again under its own tag, and a tag that names a type
/// is the tag of that type.
pub proof fn lemma_tags_name_their_types(data_type: PrimitiveType, tag: Seq<char>)
    ensures
        type_named(data_type.tag()) == Some(data_type),
        type_named(tag) == Some(data_type) <==> tag == data_type.tag(),
{
    reveal_strlit("timestamp");
    reveal_strlit("integer");
    reveal_strlit("double");
    assert("timestamp"@[0] == 't');
    assert("integer"@[0] == 'i');
    assert("double"@[0] == 'd');
}

impl PrimitiveType {
    /// The type that the table engine knows under `name`, or `None` when the
    /// name is not one of `timestamp`, `integer` and `double`.
    pub fn from_name(name: &str) -> (data_type: Option<PrimitiveType>)
        ensures
            data_type == type_named(name@),
    {
        let given = name.to_owned();
        if given == "timestamp".to_owned() {
            Some(PrimitiveType::Timestamp)
        } else if given == "integer".to_owned() {
            Some(PrimitiveType::Integer)
        } else if given == "double".to_owned() {
            Some(PrimitiveType::Double)
        } else {
            None
        }
    }
}

/// Mathematical value of a [`SchemaField`].
pub struct FieldView {
    pub name: Seq<char>,
    pub data_type: PrimitiveType,
    pub nullable: bool,
    pub metadata: Seq<(Seq<char>, Seq<char>)>,
}

/// One field of a schema.
#[derive(Debug)]
pub struct SchemaField {
    pub name: String,
    pub data_type: PrimitiveType,
    pub nullable: bool,
    /// Free-form annotations, in the order they were given.
    pub metadata: Vec<(String, String)>,
}

impl View for SchemaField {
    type V = FieldView;

    open spec fn view(&self) -> FieldView {
        FieldView {
            name: self.name@,
            data_type: self.data_type,
            nullable: self.nullable,
            metadata: annotation_views(self.metadata@),
        }
    }
}

/// The annotations of a field as pairs of character sequences.
pub open spec fn annotation_views(metadata: Seq<(String, String)>) -> Seq<(Seq<char>, Seq<char>)> {
    Seq::new(metadata.len(), |i: int| (metadata[i].0@, metadata[i].1@))
}

/// The fields of a list as mathematical values, in the same order.
pub open spec fn field_views(fields: Seq<SchemaField>) -> Seq<FieldView> {
    Seq::new(fields.len(), |i: int| fields[i]@)
}

/// No two fields carry the same name.
pub open spec fn distinct_names(fields: Seq<FieldView>) -> bool {
    forall|i: int, j: int| 0 <= i < j < fields.len() ==> fields[i].name != fields[j].name
}

/// The data types of a list of fields, in the same order.
pub open spec fn types_of(fields: Seq<FieldView>) -> Seq<PrimitiveType> {
    Seq::new(fields.len(), |i: int| fields[i].data_type)
}

impl SchemaField {
    /// A field with the given name, type, nullability and annotations.
    pub fn new(
        name: String,
        data_type: PrimitiveType,
        nullable: bool,
        metadata: Vec<(String, String)>,
    ) -> (field: SchemaField)
        ensures
            field@ == (FieldView {
                name: name@,
                data_type,
                nullable,
                metadata: annotation_views(metadata@),
            }),
    {
        SchemaField { name, data_type, nullable, metadata }
    }

    /// An independent copy of the field.
    pub fn duplicate(&self) -> (copy: SchemaField)
        ensures
            copy@ == self@,
    {
        let mut metadata: Vec<(String, String)> = Vec::new();
        let mut i: usize = 0;
        while i < self.metadata.len()
            invariant
                i <= self.metadata@.len(),
                metadata@.len() == i,
                forall|k: int|
                    0 <= k < i ==> metadata@[k].0@ == self.metadata@[k].0@ && metadata@[k].1@
                        == self.metadata@[k].1@,
            decreases self.metadata@.len() - i,
        {
            let key = self.metadata[i].0.clone();
            let value = self.metadata[i].1.clone();
            metadata.push((key, value));
            i = i + 1;
        }
        assert(annotation_views(metadata@) =~= annotation_views(self.metadata@));
        SchemaField {
            name: self.name.clone(),
            data_type: self.data_type,
            nullable: self.nullable,
            metadata,
        }
    }
}

/// An ordered list of fields with pairwise distinct names.
#[derive(Debug)]
pub struct Schema {
    fields: Vec<SchemaField>,
}

impl View for Schema {
    type V = Seq<FieldView>;

    closed spec fn view(&self) -> Seq<FieldView> {
        field_views(self.fields@)
    }
}

impl Schema {
    #[verifier::type_invariant]
    spec fn names_are_distinct(self) -> bool {
        distinct_names(self@)
    }

    /// A schema of the given fields in the given order, or `None` when two of
    /// them share a name.
    pub fn new(fields: Vec<SchemaField>) -> (result: Option<Schema>)
        ensures
            result is Some <==> distinct_names(field_views(fields@)),
            result is Some ==> result.unwrap()@ == field_views(fields@),
    {
        let n = fields.len();
        let mut j: usize = 0;
        while j < n
            invariant
                n == fields@.len(),
                j <= n,
                forall|a: int, b: int| 0 <= a < b < j ==> fields@[a].name@ != fields@[b].name@,
            decreases n - j,
        {
            let mut i: usize = 0;
            while i < j
                invariant
                    n == fields@.len(),
                    i <= j < n,
                    forall|a: int| 0 <= a < i ==> fields@[a].name@ != fields@[j as int].name@,
                decreases j - i,
            {
                if fields[i].name == fields[j].name {
                    assert(field_views(fields@)[i as int].name == field_views(
                        fields@,
                    )[j as int].name);
                    return None;
                }
                i = i + 1;
            }
            j = j + 1;
        }
        assert(distinct_names(field_views(fields@)));
        Some(Schema { fields })
    }

    /// A schema of fields already known to carry distinct names.
    pub(crate) fn from_distinct(fields: Vec<SchemaField>) -> (schema: Schema)
        requires
            distinct_names(field_views(fields@)),
        ensures
            schema@ == field_views(fields@),
    {
        Schema { fields }
    }

    /// The number of fields.
    pub fn len(&self) -> (n: usize)
        ensures
            n == self@.len(),
            distinct_names(self@),
    {
        proof {
            use_type_invariant(self);
        }
        self.fields.len()
    }

    /// The fields in schema order.
    pub fn get_fields(&self) -> (fields: &Vec<SchemaField>)
        ensures
            field_views(fields@) == self@,
            distinct_names(self@),
    {
        proof {
            use_type_invariant(self);
        }
        &self.fields
    }

    /// The field at `index`, or `None` past the end.
    pub fn field(&self, index: usize) -> (field: Option<&SchemaField>)
        ensures
            field is Some <==> index < self@.len(),
            field is Some ==> field.unwrap()@ == self@[index as int],
    {
        if index < self.fields.len() {
            Some(&self.fields[index])
        } else {
            None
        }
    }

    /// The data types of the fields in schema order.
    pub fn data_types(&self) -> (types: Vec<PrimitiveType>)
        ensures
            types@ == types_of(self@),
    {
        let mut types: Vec<PrimitiveType> = Vec::new();
        let mut i: usize = 0;
        while i < self.fields.len()
            invariant
                i <= self.fields@.len(),
                types@.len() == i,
                forall|k: int| 0 <= k < i ==> types@[k] == self.fields@[k].data_type,
            decreases self.fields@.len() - i,
        {
            types.push(self.fields[i].data_type);
            i = i + 1;
        }
        assert(types@ =~= types_of(self@));
        types
    }

    /// An independent copy of the schema.
    pub fn duplicate(&self) -> (copy: Schema)
        ensures
            copy@ == self@,
    {
        proof {
            use_type_invariant(self);
        }
        let mut fields: Vec<SchemaField> = Vec::new();
        let mut i: usize = 0;
        while i < self.fields.len()
            invariant
                i <= self.fields@.len(),
                fields@.len() == i,
                forall|k: int| 0 <= k < i ==> fields@[k]@ == self.fields@[k]@,
            decreases self.fields@.len() - i,
        {
            fields.push(self.fields[i].duplicate());
            i = i + 1;
        }
        assert(field_views(fields@) =~= field_views(self.fields@));
        Schema { fields }
    }
}

} // verus!
