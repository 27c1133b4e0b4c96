//! Layer definition: the schema of a vector layer.
//!
//! A [`Defn`] holds, as plain values, what the native layer-definition handle
//! reports of a layer: one record per attribute field (name, alias, type,
//! width, precision, nullability, uniqueness, default) and one per geometry
//! field (name, geometry type, spatial reference). Over that model the
//! library proves the schema operations: lazy iteration over both kinds of
//! field, case-insensitive first-match name lookup, and the rule that the
//! layer's geometry type is that of its first geometry field.

use vstd::prelude::*;

use crate::ascii::{lemma_name_matches_equivalence, name_matches, str_eq_ignore_ascii_case};
use crate::errors::GdalError;

verus! {

/// Geometry type code of a layer without geometry fields.
pub const WKB_NONE: u32 = 100;

/// A spatial reference system, carried as its well-known-text form.
#[derive(Debug, PartialEq, Eq)]
pub struct SpatialRef {
    wkt: String,
}

impl View for SpatialRef {
    type V = Seq<char>;

    closed spec fn view(&self) -> Seq<char> {
        self.wkt@
    }
}

impl SpatialRef {
    /// Wrap a spatial reference given in well-known text.
    pub fn from_wkt(wkt: String) -> (r: SpatialRef)
        ensures
            r@ == wkt@,
    {
        SpatialRef { wkt }
    }

    /// The well-known-text form of this spatial reference.
    pub fn wkt(&self) -> (r: String)
        ensures
            r@ == self@,
    {
        self.wkt.clone()
    }
}

/// The metadata of one attribute field, as plain values.
pub struct FieldDefnData {
    pub name: String,
    pub alternative_name: String,
    pub field_type: u32,
    pub width: i32,
    pub precision: i32,
    pub nullable: bool,
    pub unique: bool,
    pub default_value: Option<String>,
}

/// Mathematical model of one attribute field.
pub ghost struct FieldDefnView {
    pub name: Seq<char>,
    pub alternative_name: Seq<char>,
    pub field_type: u32,
    pub width: int,
    pub precision: int,
    pub nullable: bool,
    pub unique: bool,
    pub default_value: Option<Seq<char>>,
}

impl View for FieldDefnData {
    type V = FieldDefnView;

    open spec fn view(&self) -> FieldDefnView {
        FieldDefnView {
            name: self.name@,
            alternative_name: self.alternative_name@,
            field_type: self.field_type,
            width: self.width as int,
            precision: self.precision as int,
            nullable: self.nullable,
            unique: self.unique,
            default_value: match self.default_value {
                Some(ref s) => Some(s@),
                None => None,
            },
        }
    }
}

/// The metadata of one geometry field, as plain values.
pub struct GeomFieldDefnData {
    pub name: String,
    pub field_type: u32,
    pub spatial_ref: Option<SpatialRef>,
}

/// Mathematical model of one geometry field.
pub ghost struct GeomFieldDefnView {
    pub name: Seq<char>,
    pub field_type: u32,
    pub spatial_ref: Option<Seq<char>>,
}

impl View for GeomFieldDefnData {
    type V = GeomFieldDefnView;

    open spec fn view(&self) -> GeomFieldDefnView {
        GeomFieldDefnView {
            name: self.name@,
            field_type: self.field_type,
            spatial_ref: match self.spatial_ref {
                Some(ref s) => Some(s@),
                None => None,
            },
        }
    }
}

/// Mathematical model of a layer definition.
pub ghost struct DefnView {
    pub fields: Seq<FieldDefnView>,
    pub geom_fields: Seq<GeomFieldDefnView>,
}

/// Layer definition
///
/// Defines the fields available for features in a layer.
pub struct Defn {
    fields: Vec<FieldDefnData>,
    geom_fields: Vec<GeomFieldDefnData>,
}

impl View for Defn {
    type V = DefnView;

    closed spec fn view(&self) -> DefnView {
        DefnView {
            fields: Seq::new(self.fields@.len(), |i: int| self.fields@[i]@),
            geom_fields: Seq::new(self.geom_fields@.len(), |i: int| self.geom_fields@[i]@),
        }
    }
}

/// The geometry type a schema reports: that of its first geometry field, or
/// [`WKB_NONE`] where it has none.
pub open spec fn spec_geometry_type(d: DefnView) -> u32 {
    if d.geom_fields.len() > 0 {
        d.geom_fields[0].field_type
    } else {
        WKB_NONE
    }
}

impl Defn {
    /// Assemble a layer definition from the per-field records.
    pub fn new(fields: Vec<FieldDefnData>, geom_fields: Vec<GeomFieldDefnData>) -> (d: Defn)
        ensures
            d@.fields.len() == fields@.len(),
            forall|i: int| 0 <= i < fields@.len() ==> d@.fields[i] == fields@[i]@,
            d@.geom_fields.len() == geom_fields@.len(),
            forall|i: int| 0 <= i < geom_fields@.len() ==> d@.geom_fields[i] == geom_fields@[i]@,
    {
        Defn { fields, geom_fields }
    }

    /// Number of attribute fields in this schema.
    pub fn field_count(&self) -> (n: usize)
        ensures
            n == self@.fields.len(),
    {
        self.fields.len()
    }

    /// Number of geometry fields in this schema.
    pub fn geom_field_count(&self) -> (n: usize)
        ensures
            n == self@.geom_fields.len(),
    {
        self.geom_fields.len()
    }

    /// Iterate over the field schema of this layer.
    pub fn fields<'a>(&'a self) -> (it: FieldIterator<'a>)
        ensures
            it.wf(),
            it.schema() == self@,
            it.cursor() == 0,
    {
        let total = self.fields.len();
        FieldIterator { defn: self, next_id: 0, total }
    }

    /// Iterate over the geometry field schema of this layer.
    pub fn geom_fields<'a>(&'a self) -> (it: GeomFieldIterator<'a>)
        ensures
            it.wf(),
            it.schema() == self@,
            it.cursor() == 0,
    {
        let total = self.geom_fields.len();
        GeomFieldIterator { defn: self, next_id: 0, total }
    }

    /// Get the geometry type of the first geometry field
    pub fn geometry_type(&self) -> (t: u32)
        ensures
            t == spec_geometry_type(self@),
    {
        if self.geom_fields.len() > 0 {
            self.geom_fields[0].field_type
        } else {
            WKB_NONE
        }
    }

    /// Get the index of a field.
    ///
    /// The comparison is done case-insensitively, and if multiple fields match
    /// the requested name, the first one is returned.
    /// If the field is missing, returns [`GdalError::InvalidFieldName`].
    pub fn field_index(&self, field_name: &str) -> (r: Result<usize, GdalError>)
        ensures
            match r {
                Ok(i) => i < self@.fields.len() && name_matches(
                    self@.fields[i as int].name,
                    field_name@,
                ) && forall|j: int|
                    0 <= j < i ==> !name_matches(self@.fields[j].name, field_name@),
                Err(e) => (forall|j: int|
                    0 <= j < self@.fields.len() ==> !name_matches(
                        self@.fields[j].name,
                        field_name@,
                    )) && (e matches GdalError::InvalidFieldName { field_name: f, method_name: m }
                    && f@ == field_name@ && m@ == "OGR_FD_GetFieldIndex"@),
            },
    {
        let n = self.fields.len();
        let mut j: usize = 0;
        while j < n
            invariant
                n == self.fields@.len(),
                j <= n,
                self@.fields.len() == self.fields@.len(),
                forall|k: int| 0 <= k < j ==> !name_matches(self@.fields[k].name, field_name@),
                forall|k: int| 0 <= k < n ==> self@.fields[k] == self.fields@[k]@,
            decreases n - j,
        {
            if str_eq_ignore_ascii_case(self.fields[j].name.as_str(), field_name) {
                return Ok(j);
            }
            j += 1;
        }
        Err(
            GdalError::InvalidFieldName {
                field_name: field_name.to_owned(),
                method_name: "OGR_FD_GetFieldIndex",
            },
        )
    }

    /// Get the index of a geometry field.
    ///
    /// The comparison is done case-insensitively, and if multiple fields match
    /// the requested name, the first one is returned.
    /// If the field is missing, returns [`GdalError::InvalidFieldName`].
    pub fn geometry_field_index(&self, field_name: &str) -> (r: Result<usize, GdalError>)
        ensures
            match r {
                Ok(i) => i < self@.geom_fields.len() && name_matches(
                    self@.geom_fields[i as int].name,
                    field_name@,
                ) && forall|j: int|
                    0 <= j < i ==> !name_matches(self@.geom_fields[j].name, field_name@),
                Err(e) => (forall|j: int|
                    0 <= j < self@.geom_fields.len() ==> !name_matches(
                        self@.geom_fields[j].name,
                        field_name@,
                    )) && (e matches GdalError::InvalidFieldName { field_name: f, method_name: m }
                    && f@ == field_name@ && m@ == "OGR_FD_GetGeomFieldIndex"@),
            },
    {
        let n = self.geom_fields.len();
        let mut j: usize = 0;
        while j < n
            invariant
                n == self.geom_fields@.len(),
                j <= n,
                self@.geom_fields.len() == self.geom_fields@.len(),
                forall|k: int| 0 <= k < j ==> !name_matches(self@.geom_fields[k].name, field_name@),
                forall|k: int| 0 <= k < n ==> self@.geom_fields[k] == self.geom_fields@[k]@,
            decreases n - j,
        {
            if str_eq_ignore_ascii_case(self.geom_fields[j].name.as_str(), field_name) {
                return Ok(j);
            }
            j += 1;
        }
        Err(
            GdalError::InvalidFieldName {
                field_name: field_name.to_owned(),
                method_name: "OGR_FD_GetGeomFieldIndex",
            },
        )
    }
}

/// Law: two queries that match each other case-insensitively match exactly
/// the same fields of any schema, so [`Defn::field_index`] and
/// [`Defn::geometry_field_index`] treat them alike: the query's own case
/// never changes the outcome of a lookup.
pub proof fn lemma_lookup_query_case_insensitive(d: DefnView, a: Seq<char>, b: Seq<char>)
    requires
        name_matches(a, b),
    ensures
        forall|j: int|
            0 <= j < d.fields.len() ==> name_matches(d.fields[j].name, a) == name_matches(
                d.fields[j].name,
                b,
            ),
        forall|j: int|
            0 <= j < d.geom_fields.len() ==> name_matches(d.geom_fields[j].name, a) == name_matches(
                d.geom_fields[j].name,
                b,
            ),
{
    lemma_name_matches_equivalence(a, b, a);
    assert forall|j: int|
        0 <= j < d.fields.len() implies name_matches(d.fields[j].name, a) == name_matches(
        d.fields[j].name,
        b,
    ) by {
        lemma_name_matches_equivalence(d.fields[j].name, a, b);
        lemma_name_matches_equivalence(d.fields[j].name, b, a);
    }
    assert forall|j: int|
        0 <= j < d.geom_fields.len() implies name_matches(d.geom_fields[j].name, a) == name_matches(
        d.geom_fields[j].name,
        b,
    ) by {
        lemma_name_matches_equivalence(d.geom_fields[j].name, a, b);
        lemma_name_matches_equivalence(d.geom_fields[j].name, b, a);
    }
}

/// Lazy cursor over the attribute fields of a [`Defn`].
pub struct FieldIterator<'a> {
    defn: &'a Defn,
    next_id: usize,
    total: usize,
}

impl<'a> FieldIterator<'a> {
    /// The iterator's cursor has not run past the schema's field count.
    pub closed spec fn wf(&self) -> bool {
        self.total == self.defn@.fields.len() && self.next_id <= self.total
    }

    /// The schema being walked.
    pub closed spec fn schema(&self) -> DefnView {
        self.defn@
    }

    /// How many fields have been handed out.
    pub closed spec fn cursor(&self) -> int {
        self.next_id as int
    }

    /// The next field of the schema, or `None` once every field has been
    /// handed out.
    pub fn next(&mut self) -> (r: Option<Field<'a>>)
        requires
            old(self).wf(),
        ensures
            final(self).wf(),
            final(self).schema() == old(self).schema(),
            old(self).cursor() == old(self).schema().fields.len() ==> r is None
                && final(self).cursor() == old(self).cursor(),
            old(self).cursor() < old(self).schema().fields.len() ==> (
            r matches Some(f) && f.wf() && f.schema() == old(self).schema()
                && f@ == old(self).schema().fields[old(self).cursor()]
                && final(self).cursor() == old(self).cursor() + 1),
    {
        if self.next_id == self.total {
            return None;
        }
        let field = Field { defn: self.defn, idx: self.next_id };
        self.next_id += 1;
        Some(field)
    }
}

/// One attribute field of a schema, borrowed from its [`Defn`].
pub struct Field<'a> {
    defn: &'a Defn,
    idx: usize,
}

impl<'a> View for Field<'a> {
    type V = FieldDefnView;

    closed spec fn view(&self) -> FieldDefnView {
        self.defn@.fields[self.idx as int]
    }
}

impl<'a> Field<'a> {
    /// The field's position lies within its schema.
    pub closed spec fn wf(&self) -> bool {
        self.idx < self.defn@.fields.len()
    }

    /// The schema this field belongs to.
    pub closed spec fn schema(&self) -> DefnView {
        self.defn@
    }

    /// The position of this field within its schema.
    pub fn index(&self) -> (i: usize)
        requires
            self.wf(),
        ensures
            0 <= i < self.schema().fields.len(),
            self@ == self.schema().fields[i as int],
    {
        self.idx
    }

    /// Get the name of this field.
    pub fn name(&self) -> (r: String)
        requires
            self.wf(),
        ensures
            r@ == self@.name,
    {
        self.defn.fields[self.idx].name.clone()
    }

    /// Get the alternative name (alias) of this field.
    pub fn alternative_name(&self) -> (r: String)
        requires
            self.wf(),
        ensures
            r@ == self@.alternative_name,
    {
        self.defn.fields[self.idx].alternative_name.clone()
    }

    /// Get the data type of this field.
    pub fn field_type(&self) -> (t: u32)
        requires
            self.wf(),
        ensures
            t == self@.field_type,
    {
        self.defn.fields[self.idx].field_type
    }

    /// Get the formatting width for this field.
    ///
    /// Zero means no specified width.
    pub fn width(&self) -> (w: i32)
        requires
            self.wf(),
        ensures
            w == self@.width,
    {
        self.defn.fields[self.idx].width
    }

    /// Get the formatting precision for this field.
    ///
    /// This should normally be zero for fields of types other than Real.
    pub fn precision(&self) -> (p: i32)
        requires
            self.wf(),
        ensures
            p == self@.precision,
    {
        self.defn.fields[self.idx].precision
    }

    /// Return whether this field can receive null values.
    pub fn is_nullable(&self) -> (b: bool)
        requires
            self.wf(),
        ensures
            b == self@.nullable,
    {
        self.defn.fields[self.idx].nullable
    }

    /// Return whether this field has a unique constraint.
    pub fn is_unique(&self) -> (b: bool)
        requires
            self.wf(),
        ensures
            b == self@.unique,
    {
        self.defn.fields[self.idx].unique
    }

    /// Get default field value.
    pub fn default_value(&self) -> (r: Option<String>)
        requires
            self.wf(),
        ensures
            match r {
                Some(s) => self@.default_value matches Some(d) && s@ == d,
                None => self@.default_value is None,
            },
    {
        match &self.defn.fields[self.idx].default_value {
            Some(s) => Some(s.clone()),
            None => None,
        }
    }
}

/// Lazy cursor over the geometry fields of a [`Defn`].
pub struct GeomFieldIterator<'a> {
    defn: &'a Defn,
    next_id: usize,
    total: usize,
}

impl<'a> GeomFieldIterator<'a> {
    /// The iterator's cursor has not run past the schema's geometry field
    /// count.
    pub closed spec fn wf(&self) -> bool {
        self.total == self.defn@.geom_fields.len() && self.next_id <= self.total
    }

    /// The schema being walked.
    pub closed spec fn schema(&self) -> DefnView {
        self.defn@
    }

    /// How many geometry fields have been handed out.
    pub closed spec fn cursor(&self) -> int {
        self.next_id as int
    }

    /// The next geometry field of the schema, or `None` once every one has
    /// been handed out.
    pub fn next(&mut self) -> (r: Option<GeomField<'a>>)
        requires
            old(self).wf(),
        ensures
            final(self).wf(),
            final(self).schema() == old(self).schema(),
            old(self).cursor() == old(self).schema().geom_fields.len() ==> r is None
                && final(self).cursor() == old(self).cursor(),
            old(self).cursor() < old(self).schema().geom_fields.len() ==> (
            r matches Some(f) && f.wf() && f.schema() == old(self).schema()
                && f@ == old(self).schema().geom_fields[old(self).cursor()]
                && final(self).cursor() == old(self).cursor() + 1),
    {
        if self.next_id == self.total {
            return None;
        }
        let field = GeomField { defn: self.defn, idx: self.next_id };
        self.next_id += 1;
        Some(field)
    }
}

/// One geometry field of a schema, borrowed from its [`Defn`].
pub struct GeomField<'a> {
    defn: &'a Defn,
    idx: usize,
}

impl<'a> View for GeomField<'a> {
    type V = GeomFieldDefnView;

    closed spec fn view(&self) -> GeomFieldDefnView {
        self.defn@.geom_fields[self.idx as int]
    }
}

impl<'a> GeomField<'a> {
    /// The field's position lies within its schema.
    pub closed spec fn wf(&self) -> bool {
        self.idx < self.defn@.geom_fields.len()
    }

    /// The schema this field belongs to.
    pub closed spec fn schema(&self) -> DefnView {
        self.defn@
    }

    /// The position of this geometry field within its schema.
    pub fn index(&self) -> (i: usize)
        requires
            self.wf(),
        ensures
            0 <= i < self.schema().geom_fields.len(),
            self@ == self.schema().geom_fields[i as int],
    {
        self.idx
    }

    /// Get the name of this field.
    pub fn name(&self) -> (r: String)
        requires
            self.wf(),
        ensures
            r@ == self@.name,
    {
        self.defn.geom_fields[self.idx].name.clone()
    }

    /// Get the geometry type of this field.
    pub fn field_type(&self) -> (t: u32)
        requires
            self.wf(),
        ensures
            t == self@.field_type,
    {
        self.defn.geom_fields[self.idx].field_type
    }

    /// Get the spatial reference of this field, or
    /// [`GdalError::NullPointer`] where the schema carries none.
    pub fn spatial_ref(&self) -> (r: Result<SpatialRef, GdalError>)
        requires
            self.wf(),
        ensures
            match r {
                Ok(sr) => self@.spatial_ref matches Some(s) && sr@ == s,
                Err(e) => self@.spatial_ref is None && (
                e matches GdalError::NullPointer { method_name: m } && m@
                    == "OGR_GFld_GetSpatialRef"@),
            },
    {
        match &self.defn.geom_fields[self.idx].spatial_ref {
            Some(s) => Ok(SpatialRef { wkt: s.wkt.clone() }),
            None => Err(GdalError::NullPointer { method_name: "OGR_GFld_GetSpatialRef" }),
        }
    }
}

} // verus!
