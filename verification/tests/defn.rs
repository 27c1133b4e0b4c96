use gdal_defn::ascii::str_eq_ignore_ascii_case;
use gdal_defn::errors::GdalError;
use gdal_defn::vector::defn::{Defn, FieldDefnData, GeomFieldDefnData, SpatialRef, WKB_NONE};

fn field(name: &str) -> FieldDefnData {
    FieldDefnData {
        name: String::from(name),
        alternative_name: String::new(),
        field_type: 0,
        width: 0,
        precision: 0,
        nullable: true,
        unique: false,
        default_value: None,
    }
}

fn sample_defn() -> Defn {
    let fields = vec![
        FieldDefnData {
            name: String::from("highway"),
            alternative_name: String::from("road class"),
            field_type: 4,
            width: 80,
            precision: 0,
            nullable: true,
            unique: false,
            default_value: Some(String::from("'unclassified'")),
        },
        FieldDefnData {
            name: String::from("lanes"),
            alternative_name: String::new(),
            field_type: 0,
            width: 0,
            precision: 0,
            nullable: false,
            unique: true,
            default_value: None,
        },
    ];
    let geom_fields = vec![GeomFieldDefnData {
        name: String::from("geometry"),
        field_type: 2,
        spatial_ref: Some(SpatialRef::from_wkt(String::from("GEOGCS[\"WGS 84\"]"))),
    }];
    Defn::new(fields, geom_fields)
}

#[test]
fn field_index_exact_match() {
    let d = sample_defn();
    assert_eq!(d.field_index("highway"), Ok(0));
    assert_eq!(d.field_index("lanes"), Ok(1));
}

#[test]
fn field_index_is_case_insensitive() {
    let d = sample_defn();
    assert_eq!(d.field_index("HIGHWAY"), Ok(0));
    assert_eq!(d.field_index("Lanes"), Ok(1));
    assert_eq!(d.field_index("lAnEs"), Ok(1));
}

#[test]
fn field_index_returns_first_of_several_matches() {
    let d = Defn::new(vec![field("Name"), field("NAME"), field("name")], vec![]);
    assert_eq!(d.field_index("name"), Ok(0));
    assert_eq!(d.field_index("NamE"), Ok(0));
}

#[test]
fn field_index_missing_name_is_an_error() {
    let d = sample_defn();
    assert_eq!(
        d.field_index("surface"),
        Err(GdalError::InvalidFieldName {
            field_name: String::from("surface"),
            method_name: "OGR_FD_GetFieldIndex",
        })
    );
}

#[test]
fn field_index_on_empty_schema() {
    let d = Defn::new(vec![], vec![]);
    assert!(matches!(
        d.field_index("anything"),
        Err(GdalError::InvalidFieldName { .. })
    ));
}

#[test]
fn field_index_does_not_fold_beyond_ascii_letters() {
    // '[' is '{' shifted by 32, and '@' is '`' shifted by 32, but neither
    // pair is a pair of ASCII letters, so they must not match.
    let d = Defn::new(vec![field("a[b"), field("a@b")], vec![]);
    assert!(d.field_index("a{b").is_err());
    assert!(d.field_index("a`b").is_err());
    assert_eq!(d.field_index("A[B"), Ok(0));
}

#[test]
fn field_index_compares_non_ascii_exactly() {
    let d = Defn::new(vec![field("stra\u{df}e"), field("caf\u{e9}")], vec![]);
    assert_eq!(d.field_index("STRA\u{df}E"), Ok(0));
    assert_eq!(d.field_index("caf\u{e9}"), Ok(1));
    // U+00C9 is the upper-case form of U+00E9, but it is not an ASCII letter.
    assert!(d.field_index("CAF\u{c9}").is_err());
}

#[test]
fn geometry_field_index_matches_and_misses() {
    let d = sample_defn();
    assert_eq!(d.geometry_field_index("GEOMETRY"), Ok(0));
    assert_eq!(
        d.geometry_field_index("nope"),
        Err(GdalError::InvalidFieldName {
            field_name: String::from("nope"),
            method_name: "OGR_FD_GetGeomFieldIndex",
        })
    );
}

#[test]
fn geometry_type_of_first_geometry_field() {
    let d = sample_defn();
    assert_eq!(d.geometry_type(), 2);
}

#[test]
fn geometry_type_without_geometry_fields_is_none() {
    let d = Defn::new(vec![field("a")], vec![]);
    assert_eq!(d.geometry_type(), WKB_NONE);
    assert_eq!(d.geometry_type(), 100);
}

#[test]
fn field_iterator_walks_the_schema_in_order() {
    let d = sample_defn();
    assert_eq!(d.field_count(), 2);
    let mut it = d.fields();
    let first = it.next().expect("first field");
    assert_eq!(first.index(), 0);
    assert_eq!(first.name(), "highway");
    let second = it.next().expect("second field");
    assert_eq!(second.index(), 1);
    assert_eq!(second.name(), "lanes");
    assert!(it.next().is_none());
    assert!(it.next().is_none());
}

#[test]
fn field_iterator_on_empty_schema() {
    let d = Defn::new(vec![], vec![]);
    let mut it = d.fields();
    assert!(it.next().is_none());
}

#[test]
fn field_accessors_report_the_record() {
    let d = sample_defn();
    let mut it = d.fields();
    let highway = it.next().unwrap();
    assert_eq!(highway.name(), "highway");
    assert_eq!(highway.alternative_name(), "road class");
    assert_eq!(highway.field_type(), 4);
    assert_eq!(highway.width(), 80);
    assert_eq!(highway.precision(), 0);
    assert!(highway.is_nullable());
    assert!(!highway.is_unique());
    assert_eq!(
        highway.default_value(),
        Some(String::from("'unclassified'"))
    );
    let lanes = it.next().unwrap();
    assert_eq!(lanes.alternative_name(), "");
    assert!(!lanes.is_nullable());
    assert!(lanes.is_unique());
    assert_eq!(lanes.default_value(), None);
}

#[test]
fn geom_field_iterator_and_accessors() {
    let d = sample_defn();
    assert_eq!(d.geom_field_count(), 1);
    let mut it = d.geom_fields();
    let g = it.next().expect("geometry field");
    assert_eq!(g.index(), 0);
    assert_eq!(g.name(), "geometry");
    assert_eq!(g.field_type(), 2);
    let sr = g.spatial_ref().expect("spatial ref");
    assert_eq!(sr.wkt(), "GEOGCS[\"WGS 84\"]");
    assert!(it.next().is_none());
}

#[test]
fn missing_spatial_ref_is_a_null_pointer_error() {
    let d = Defn::new(
        vec![],
        vec![GeomFieldDefnData {
            name: String::from("geom"),
            field_type: 1,
            spatial_ref: None,
        }],
    );
    let mut it = d.geom_fields();
    let g = it.next().unwrap();
    assert_eq!(
        g.spatial_ref(),
        Err(GdalError::NullPointer {
            method_name: "OGR_GFld_GetSpatialRef",
        })
    );
}

#[test]
fn ascii_comparison_rules() {
    assert!(str_eq_ignore_ascii_case("", ""));
    assert!(str_eq_ignore_ascii_case("abc", "ABC"));
    assert!(str_eq_ignore_ascii_case("a1_Z", "A1_z"));
    assert!(!str_eq_ignore_ascii_case("abc", "abcd"));
    assert!(!str_eq_ignore_ascii_case("abc", "abd"));
    assert!(!str_eq_ignore_ascii_case("\u{e9}", "\u{c9}"));
    assert!(str_eq_ignore_ascii_case("\u{e9}X", "\u{e9}x"));
}
