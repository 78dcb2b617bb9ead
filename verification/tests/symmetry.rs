use std::collections::BTreeMap;

use cgmath::Transform;
use crystallib::symmetry::key::key_before;
use crystallib::symmetry::orbit::point_before;
use crystallib::text::remove_whitespace;
use crystallib::{
    integer_decode, point3_decode, trivial_translations, IntoSpaceGroupNumber,
    IntoSpaceGroupSymbol, Matrix4, Orbit, Point3, SpaceGroup, SpaceGroupGenerators,
    SpaceGroupSymmetryOperations, Vector4,
};
use crystallib::symmetry::group::TableError;

fn bits(point: cgmath::Point3<f64>) -> Point3 {
    Point3::new(point.x.to_bits(), point.y.to_bits(), point.z.to_bits())
}

fn number(point: Point3) -> cgmath::Point3<f64> {
    cgmath::Point3::new(
        f64::from_bits(point.x),
        f64::from_bits(point.y),
        f64::from_bits(point.z),
    )
}

fn column(v: cgmath::Vector4<f64>) -> Vector4 {
    Vector4 {
        x: v.x.to_bits(),
        y: v.y.to_bits(),
        z: v.z.to_bits(),
        w: v.w.to_bits(),
    }
}

fn matrix_bits(m: cgmath::Matrix4<f64>) -> Matrix4 {
    Matrix4 {
        x: column(m.x),
        y: column(m.y),
        z: column(m.z),
        w: column(m.w),
    }
}

fn matrix_number(m: &Matrix4) -> cgmath::Matrix4<f64> {
    let c = |v: Vector4| {
        cgmath::Vector4::new(
            f64::from_bits(v.x),
            f64::from_bits(v.y),
            f64::from_bits(v.z),
            f64::from_bits(v.w),
        )
    };
    cgmath::Matrix4::from_cols(c(m.x), c(m.y), c(m.z), c(m.w))
}

fn diagonal(x: f64, y: f64, z: f64) -> Matrix4 {
    matrix_bits(cgmath::Matrix4::from_nonuniform_scale(x, y, z))
}

fn symbols(list: &[&str]) -> SpaceGroup {
    SpaceGroup::new(list.iter().map(|s| s.to_string()).collect())
        .ok()
        .unwrap()
}

/// The first three space groups: P1, P-1 and P2 with the unique axis b.
fn first_groups() -> (SpaceGroup, SpaceGroupSymmetryOperations) {
    let groups = symbols(&["P1", "P-1", "P2"]);
    let mut operations = SpaceGroupSymmetryOperations::new();
    operations.insert(1, vec![diagonal(1.0, 1.0, 1.0)]);
    operations.insert(2, vec![diagonal(1.0, 1.0, 1.0), diagonal(-1.0, -1.0, -1.0)]);
    operations.insert(3, vec![diagonal(1.0, 1.0, 1.0), diagonal(-1.0, 1.0, -1.0)]);
    (groups, operations)
}

fn equivalent_points(
    groups: &SpaceGroup,
    operations: &SpaceGroupSymmetryOperations,
    space_group_number: i32,
    point: cgmath::Point3<f64>,
) -> Option<Vec<cgmath::Point3<f64>>> {
    let images: Vec<Point3> = operations
        .get(groups, space_group_number)?
        .iter()
        .map(|m| bits(matrix_number(m).transform_point(point)))
        .collect();
    let orbit = operations.generate_symmetry_equivalent_points_from_point(
        groups,
        space_group_number,
        &images,
    )?;
    Some(orbit.into_iter().map(number).collect())
}

#[test]
fn test_dedup() {
    let x = [1.0, 2.0, 3.0, 3.0, 3.00002, 3.00002, 3.1];

    let y = x
        .iter()
        .map(|&x: &f64| {
            let (mantissa, exponent, sign) = integer_decode(x.to_bits());

            ((mantissa, exponent, sign), x)
        })
        .collect::<BTreeMap<_, _>>()
        .into_iter()
        .map(|(_, v)| v)
        .collect::<Vec<_>>();

    assert_eq!(y, [1.0, 2.0, 3.0, 3.00002, 3.1]);
}

#[test]
fn test_symmetry_equivalent_points() {
    let (groups, operations) = first_groups();

    let point = cgmath::Point3::new(0.0, 0.0, 0.0);

    let new_points = equivalent_points(&groups, &operations, 1, point).unwrap();

    let expected = vec![point];

    assert_eq!(new_points, expected);

    let point = cgmath::Point3::new(0.5, 0.5, 0.5);

    let new_points = equivalent_points(&groups, &operations, 3, point).unwrap();

    let expected = vec![
        cgmath::Point3::new(-0.5, 0.5, -0.5),
        cgmath::Point3::new(0.5, 0.5, 0.5),
    ];

    assert_eq!(new_points, expected);
}

#[test]
#[should_panic]
fn test_serde_fail() {
    let (groups, _) = first_groups();
    groups.get_symbol(0).unwrap();
}

#[test]
fn dedup_through_an_orbit() {
    let x = [1.0, 2.0, 3.0, 3.0, 3.00002, 3.00002, 3.1];
    let points: Vec<Point3> = x
        .iter()
        .map(|&x: &f64| Point3::new(x.to_bits(), 0, 0))
        .collect();
    let orbit = Orbit::from_points(&points).into_values();
    let y: Vec<f64> = orbit.iter().map(|p| f64::from_bits(p.x)).collect();
    assert_eq!(y, [1.0, 2.0, 3.0, 3.00002, 3.1]);
}

#[test]
fn integer_decode_exact_values() {
    assert_eq!(integer_decode(1.0f64.to_bits()), (1 << 52, -52, 1));
    assert_eq!(integer_decode(2.0f64.to_bits()), (1 << 52, -51, 1));
    assert_eq!(integer_decode(3.0f64.to_bits()), (3 << 51, -51, 1));
    assert_eq!(integer_decode(0.5f64.to_bits()), (1 << 52, -53, 1));
    assert_eq!(integer_decode((-0.5f64).to_bits()), (1 << 52, -53, -1));
    assert_eq!(integer_decode(0.0f64.to_bits()), (0, -1075, 1));
    assert_eq!(integer_decode((-0.0f64).to_bits()), (0, -1075, -1));
    assert_eq!(integer_decode(1), (2, -1075, 1));
    assert_eq!(
        integer_decode(f64::MIN_POSITIVE.to_bits()),
        (1 << 52, -1074, 1)
    );
    assert_eq!(
        integer_decode(f64::MAX.to_bits()),
        ((1 << 53) - 1, 971, 1)
    );
    assert_eq!(integer_decode(f64::INFINITY.to_bits()), (1 << 52, 972, 1));
    assert_eq!(
        integer_decode(f64::NEG_INFINITY.to_bits()),
        (1 << 52, 972, -1)
    );
    assert_eq!(integer_decode(u64::MAX), ((1 << 53) - 1, 972, -1));
}

#[test]
fn integer_decode_gives_back_the_number() {
    for x in [1.0f64, -2.5, 0.1, 3.00002, 1e-310, 6.02e23, -7.0e-12] {
        let (mantissa, exponent, sign) = integer_decode(x.to_bits());
        let half = exponent as i32 / 2;
        let value =
            sign as f64 * mantissa as f64 * 2f64.powi(half) * 2f64.powi(exponent as i32 - half);
        assert_eq!(value, x);
    }
}

#[test]
fn keys_differ_when_bits_differ() {
    let a = 3.0f64;
    let b = f64::from_bits(a.to_bits() + 1);
    assert_ne!(integer_decode(a.to_bits()), integer_decode(b.to_bits()));
    assert_ne!(
        integer_decode(0.0f64.to_bits()),
        integer_decode((-0.0f64).to_bits())
    );
    assert_eq!(integer_decode(a.to_bits()), integer_decode(3.0f64.to_bits()));
}

#[test]
fn point_key_is_the_three_coordinate_keys() {
    let p = bits(cgmath::Point3::new(-0.5, 0.5, 3.0));
    assert_eq!(
        point3_decode(p),
        [(1 << 52, -53, -1), (1 << 52, -53, 1), (3 << 51, -51, 1)]
    );
}

#[test]
fn key_order_is_lexicographic() {
    let low = [(1u64, 0i16, 1i8), (9, 9, 1), (9, 9, 1)];
    let high = [(2u64, -5i16, -1i8), (0, 0, -1), (0, 0, -1)];
    assert!(key_before(&low, &high));
    assert!(!key_before(&high, &low));
    assert!(!key_before(&low, &low));

    let a = [(1u64, 0i16, 1i8), (4, -2, 1), (7, 0, -1)];
    let b = [(1u64, 0i16, 1i8), (4, -2, 1), (7, 0, 1)];
    assert!(key_before(&a, &b));
    assert!(!key_before(&b, &a));

    let c = [(1u64, 0i16, 1i8), (4, -3, 1), (7, 0, 1)];
    assert!(key_before(&c, &a));
    let d = [(1u64, -1i16, 1i8), (5, 0, 1), (8, 0, 1)];
    assert!(key_before(&d, &c));
}

#[test]
fn point_order_follows_the_keys_not_the_numbers() {
    // 2.0 has the mantissa of 1.0 and a larger exponent; 3.0 has a larger mantissa.
    let one = Point3::new(1.0f64.to_bits(), 0, 0);
    let two = Point3::new(2.0f64.to_bits(), 0, 0);
    let three = Point3::new(3.0f64.to_bits(), 0, 0);
    let four = Point3::new(4.0f64.to_bits(), 0, 0);
    assert!(point_before(one, two));
    assert!(point_before(two, three));
    // 4.0 has the mantissa of 1.0, so it stands before 3.0.
    assert!(point_before(four, three));
    assert!(point_before(two, four));
    // The same magnitude: the negative one first.
    let minus_one = Point3::new((-1.0f64).to_bits(), 0, 0);
    assert!(point_before(minus_one, one));
    assert!(!point_before(one, minus_one));
    assert!(!point_before(one, one));
}

#[test]
fn orbit_insert_keeps_order_and_drops_repeats() {
    let mut orbit = Orbit::new();
    assert_eq!(orbit.len(), 0);
    let a = bits(cgmath::Point3::new(0.5, 0.5, 0.5));
    let b = bits(cgmath::Point3::new(-0.5, 0.5, -0.5));
    let c = bits(cgmath::Point3::new(0.25, 0.75, 0.0));
    assert!(orbit.insert(a));
    assert!(orbit.insert(b));
    assert!(!orbit.insert(a));
    assert!(orbit.insert(c));
    assert!(!orbit.insert(b));
    assert!(!orbit.insert(c));
    assert_eq!(orbit.len(), 3);
    assert!(orbit.contains(a));
    assert!(orbit.contains(b));
    assert!(orbit.contains(c));
    assert!(!orbit.contains(bits(cgmath::Point3::new(0.0, 0.0, 0.0))));
    let points = orbit.into_values();
    // 0.25 has the mantissa of 0.5 and a smaller exponent, so `c` is first.
    assert_eq!(points, vec![c, b, a]);
    for pair in points.windows(2) {
        assert!(point_before(pair[0], pair[1]));
    }
}

#[test]
fn orbit_of_one_point_is_that_point() {
    for p in [
        cgmath::Point3::new(0.0, 0.0, 0.0),
        cgmath::Point3::new(0.1, -7.5, 1e300),
        cgmath::Point3::new(-0.0, f64::NAN, f64::INFINITY),
    ] {
        let p = bits(p);
        assert_eq!(Orbit::from_points(&vec![p]).into_values(), vec![p]);
        assert_eq!(Orbit::from_points(&vec![p, p, p]).into_values(), vec![p]);
    }
}

#[test]
fn orbit_holds_no_key_twice() {
    let mut points = Vec::new();
    for i in 0..40u64 {
        let x = (i % 7) as f64 * 0.25 - 0.5;
        let y = (i % 5) as f64 * 0.5;
        let z = (i % 3) as f64 - 1.0;
        points.push(bits(cgmath::Point3::new(x, y, z)));
    }
    let orbit = Orbit::from_points(&points).into_values();
    let keys: Vec<_> = orbit.iter().map(|p| point3_decode(*p)).collect();
    for i in 0..keys.len() {
        for j in 0..keys.len() {
            if i != j {
                assert_ne!(keys[i], keys[j]);
            }
        }
    }
    let mut sorted = keys.clone();
    sorted.sort();
    assert_eq!(keys, sorted);
    for p in &points {
        assert!(orbit.contains(p));
    }
    for p in &orbit {
        assert!(points.contains(p));
    }
    // Making an orbit of an orbit changes nothing.
    assert_eq!(Orbit::from_points(&orbit).into_values(), orbit);
    // The order in which the points are given does not matter.
    points.reverse();
    assert_eq!(Orbit::from_points(&points).into_values(), orbit);
}

#[test]
fn orbit_treats_close_numbers_and_signed_zeros_as_different() {
    let near = f64::from_bits(3.0f64.to_bits() + 1);
    let points = vec![
        Point3::new(3.0f64.to_bits(), 0, 0),
        Point3::new(near.to_bits(), 0, 0),
        Point3::new(0.0f64.to_bits(), 0, 0),
        Point3::new((-0.0f64).to_bits(), 0, 0),
    ];
    let orbit = Orbit::from_points(&points).into_values();
    assert_eq!(
        orbit,
        vec![points[3], points[2], points[0], points[1]]
    );
}

#[test]
fn orbit_extend_merges() {
    let a = Point3::new(1.0f64.to_bits(), 0, 0);
    let b = Point3::new(2.0f64.to_bits(), 0, 0);
    let c = Point3::new(3.0f64.to_bits(), 0, 0);
    let mut orbit = Orbit::from_points(&vec![c, a]);
    orbit.extend(&vec![b, a, c, b]);
    assert_eq!(orbit.len(), 3);
    assert_eq!(orbit.into_values(), vec![a, b, c]);
}

#[test]
fn table_rejects_repeated_and_too_many_symbols() {
    let error = |list: Vec<String>| SpaceGroup::new(list).err();
    assert_eq!(
        error(vec!["P1".to_string(), "P1".to_string()]),
        Some(TableError::RepeatedSymbol)
    );
    assert_eq!(
        error(vec!["P1".to_string(), "P-1".to_string(), "P1".to_string()]),
        Some(TableError::RepeatedSymbol)
    );
    let many = |n: usize| (0..n).map(|i| format!("G{}", i)).collect::<Vec<String>>();
    assert_eq!(error(many(256)), Some(TableError::TooManyGroups));
    assert_eq!(error(many(1000)), Some(TableError::TooManyGroups));
    // Too many symbols are reported before a repeated one.
    assert_eq!(
        error(vec!["P1".to_string(); 256]),
        Some(TableError::TooManyGroups)
    );
    assert_eq!(
        error(vec!["P1".to_string(); 255]),
        Some(TableError::RepeatedSymbol)
    );
    assert_eq!(error(many(255)), None);
    let full = SpaceGroup::new(many(255)).ok().unwrap();
    assert_eq!(full.len(), 255);
    assert_eq!(full.get_symbol(255), Some("G254"));
    assert_eq!(full.get_symbol(256), None);
    let empty = SpaceGroup::new(Vec::new()).ok().unwrap();
    assert_eq!(empty.len(), 0);
    assert_eq!(empty.get_symbol(1), None);
    assert_eq!(empty.get_symbol("P1"), None);
}

#[test]
fn table_from_json() {
    let groups = SpaceGroup::from_json(r#"["P1", "P-1", "P2", "P m -3 m"]"#)
        .ok()
        .unwrap();
    assert_eq!(groups.len(), 4);
    assert_eq!(groups.get_symbol(1), Some("P1"));
    assert_eq!(groups.get_symbol(4), Some("P m -3 m"));
    assert_eq!(groups.get_symbol(5), None);
    assert_eq!(groups.get_number(3), Some(3));
    assert_eq!("P -1".into_space_group_number(&groups), Some(2));
    let escaped = SpaceGroup::from_json(" [ \"a\\nb\", \"\\u0050\" ] ").ok().unwrap();
    assert_eq!(escaped.get_symbol(1), Some("a\nb"));
    assert_eq!(escaped.get_symbol(2), Some("P"));
    let empty = SpaceGroup::from_json("[]").ok().unwrap();
    assert_eq!(empty.len(), 0);
}

#[test]
fn table_from_json_rejects() {
    let error = |text: &str| SpaceGroup::from_json(text).err();
    assert_eq!(error(""), Some(TableError::Malformed));
    assert_eq!(error("["), Some(TableError::Malformed));
    assert_eq!(error(r#"["P1",]"#), Some(TableError::Malformed));
    assert_eq!(error(r#"["P1"] x"#), Some(TableError::Malformed));
    assert_eq!(error(r#"{"1": "P1"}"#), Some(TableError::Malformed));
    assert_eq!(error(r#"["P1", 2]"#), Some(TableError::Malformed));
    assert_eq!(error(r#""P1""#), Some(TableError::Malformed));
    assert_eq!(error("null"), Some(TableError::Malformed));
    assert_eq!(
        error(r#"["P1", "P-1", "P1"]"#),
        Some(TableError::RepeatedSymbol)
    );
    let list = |n: usize| {
        let items: Vec<String> = (0..n).map(|i| format!("\"G{}\"", i)).collect();
        format!("[{}]", items.join(","))
    };
    assert_eq!(error(&list(256)), Some(TableError::TooManyGroups));
    assert_eq!(error(&list(255)), None);
}

#[test]
fn numbers_resolve_only_inside_the_table() {
    let groups = symbols(&["P1", "P-1", "P2"]);
    assert_eq!(1u8.into_space_group_number(&groups), Some(1));
    assert_eq!(3u8.into_space_group_number(&groups), Some(3));
    assert_eq!(0u8.into_space_group_number(&groups), None);
    assert_eq!(4u8.into_space_group_number(&groups), None);
    assert_eq!(2u16.into_space_group_number(&groups), Some(2));
    assert_eq!(2u32.into_space_group_number(&groups), Some(2));
    assert_eq!(2u64.into_space_group_number(&groups), Some(2));
    assert_eq!(2u128.into_space_group_number(&groups), Some(2));
    assert_eq!(2usize.into_space_group_number(&groups), Some(2));
    assert_eq!(2i8.into_space_group_number(&groups), Some(2));
    assert_eq!(2i16.into_space_group_number(&groups), Some(2));
    assert_eq!(2i32.into_space_group_number(&groups), Some(2));
    assert_eq!(2i64.into_space_group_number(&groups), Some(2));
    assert_eq!(2i128.into_space_group_number(&groups), Some(2));
    assert_eq!(2isize.into_space_group_number(&groups), Some(2));
    assert_eq!((-1i8).into_space_group_number(&groups), None);
    assert_eq!((-255i32).into_space_group_number(&groups), None);
    assert_eq!(i128::MIN.into_space_group_number(&groups), None);
    assert_eq!(u128::MAX.into_space_group_number(&groups), None);
}

#[test]
fn numbers_are_never_reduced_to_fit() {
    let groups = symbols(&["P1", "P-1", "P2"]);
    // 257 and 513 would be 1 if only their low byte were looked at.
    assert_eq!(257u16.into_space_group_number(&groups), None);
    assert_eq!(513i32.into_space_group_number(&groups), None);
    assert_eq!(258u64.into_space_group_number(&groups), None);
    assert_eq!((-254i32).into_space_group_number(&groups), None);
    assert_eq!(257u16.into_space_group_symbol(&groups), None);
    assert_eq!((-255i64).into_space_group_symbol(&groups), None);
    assert_eq!(groups.get_symbol(257), None);
    assert_eq!(groups.get_number(257), None);
}

#[test]
fn numbers_resolve_to_symbols() {
    let groups = symbols(&["P1", "P-1", "P2"]);
    assert_eq!(1u8.into_space_group_symbol(&groups), Some("P1"));
    assert_eq!(2i32.into_space_group_symbol(&groups), Some("P-1"));
    assert_eq!(3u128.into_space_group_symbol(&groups), Some("P2"));
    assert_eq!(3isize.into_space_group_symbol(&groups), Some("P2"));
    assert_eq!(0usize.into_space_group_symbol(&groups), None);
    assert_eq!(4i16.into_space_group_symbol(&groups), None);
    assert_eq!(groups.get_symbol(1), Some("P1"));
    assert_eq!(groups.get_symbol(3u64), Some("P2"));
    assert_eq!(groups.get_symbol(0), None);
    assert_eq!(groups.get_symbol(4), None);
    assert_eq!(groups.symbol(2), Some("P-1"));
    assert_eq!(groups.symbol(0), None);
}

#[test]
fn symbol_and_number_determine_each_other() {
    let list = ["P1", "P-1", "P2", "P2_1", "C2", "Pm", "Pc", "Cm", "Cc", "Pm-3m"];
    let groups = symbols(&list);
    for id in 1..=list.len() {
        assert_eq!(groups.get_number(id), Some(id as u8));
        let symbol = groups.get_symbol(id).unwrap();
        assert_eq!(symbol, list[id - 1]);
        assert_eq!(groups.number(symbol), Some(id as u8));
        assert_eq!(symbol.into_space_group_number(&groups), Some(id as u8));
        assert_eq!(groups.get_symbol(symbol), Some(symbol));
    }
    assert_eq!(groups.get_number(0), None);
    assert_eq!(groups.get_number(list.len() + 1), None);
    assert_eq!(groups.number("P3"), None);
    assert_eq!(groups.number(""), None);
}

#[test]
fn symbols_resolve_whatever_their_whitespace() {
    let groups = symbols(&["P1", "P-1", "P2", "Pm-3m"]);
    assert_eq!("P1".into_space_group_number(&groups), Some(1));
    assert_eq!("P 1".into_space_group_number(&groups), Some(1));
    assert_eq!("P  1".into_space_group_number(&groups), Some(1));
    assert_eq!(" P1 ".into_space_group_number(&groups), Some(1));
    assert_eq!("P\t1\n".into_space_group_number(&groups), Some(1));
    assert_eq!("P\u{a0}1".into_space_group_number(&groups), Some(1));
    assert_eq!("P m -3 m".into_space_group_number(&groups), Some(4));
    assert_eq!("Pm-3m".into_space_group_number(&groups), Some(4));
    assert_eq!(
        "P m -3 m".to_string().into_space_group_number(&groups),
        Some(4)
    );
    assert_eq!(groups.get_symbol("P m -3 m"), Some("Pm-3m"));
    assert_eq!(groups.get_symbol("P m -3 m".to_string()), Some("Pm-3m"));
    assert_eq!(groups.number_from_symbol(" P - 1"), Some(2));
    // The exact lookup takes the symbol as it is written.
    assert_eq!(groups.number("P m -3 m"), None);
    assert_eq!(groups.number("Pm-3m"), Some(4));
}

#[test]
fn unknown_and_empty_symbols_resolve_to_nothing() {
    let groups = symbols(&["P1", "P-1", "P2"]);
    assert_eq!("".into_space_group_number(&groups), None);
    assert_eq!(" ".into_space_group_number(&groups), None);
    assert_eq!(" \t\n ".into_space_group_number(&groups), None);
    assert_eq!("P3".into_space_group_number(&groups), None);
    assert_eq!("p1".into_space_group_number(&groups), None);
    assert_eq!("P1 1".into_space_group_number(&groups), None);
    assert_eq!("1".into_space_group_number(&groups), None);
    assert_eq!(String::new().into_space_group_number(&groups), None);
    assert_eq!(groups.get_symbol(""), None);
    assert_eq!(groups.get_symbol("Fd-3m"), None);
}

#[test]
fn empty_symbol_never_resolves_even_if_the_table_holds_it() {
    let groups = symbols(&["P1", "", " "]);
    assert_eq!("".into_space_group_number(&groups), None);
    assert_eq!(" ".into_space_group_number(&groups), None);
    // The stored symbols are still found by number, and by exact lookup.
    assert_eq!(groups.get_symbol(2), Some(""));
    assert_eq!(groups.get_number(2), Some(2));
    assert_eq!(groups.get_number(3), Some(3));
    assert_eq!(groups.number(" "), Some(3));
}

#[test]
fn stored_symbols_keep_their_spacing() {
    let groups = symbols(&["P 1", "P m -3 m"]);
    assert_eq!(groups.get_symbol(2), Some("P m -3 m"));
    // By number, symbol and number still determine each other.
    assert_eq!(groups.get_number(1), Some(1));
    assert_eq!(groups.get_number(2), Some(2));
    assert_eq!(groups.number("P m -3 m"), Some(2));
    // A symbol is looked up without its whitespace, so it does not match a
    // stored symbol that holds some.
    assert_eq!("P m -3 m".into_space_group_number(&groups), None);
    assert_eq!("Pm-3m".into_space_group_number(&groups), None);
}

#[test]
fn whitespace_is_removed_and_nothing_else() {
    assert_eq!(remove_whitespace("P m -3 m"), "Pm-3m");
    assert_eq!(remove_whitespace("Pm-3m"), "Pm-3m");
    assert_eq!(remove_whitespace(""), "");
    assert_eq!(remove_whitespace(" \t\r\n"), "");
    assert_eq!(remove_whitespace("a\u{a0}b\u{3000}c\u{2003}d"), "abcd");
    assert_eq!(remove_whitespace("  I 4_1/a  m d "), "I4_1/amd");
    assert_eq!(remove_whitespace("\u{e9} \u{4e16}\u{754c}"), "\u{e9}\u{4e16}\u{754c}");
    for s in ["P 1", " x  y ", "", "abc", "\t"] {
        let joined: String = s.split_whitespace().collect::<Vec<_>>().join("");
        assert_eq!(remove_whitespace(s), joined);
    }
}

#[test]
fn operations_are_found_by_any_identifier() {
    let (groups, operations) = first_groups();
    let identity = diagonal(1.0, 1.0, 1.0);
    assert_eq!(operations.get(&groups, 1), Some(&vec![identity]));
    assert_eq!(operations.get(&groups, 1u8), Some(&vec![identity]));
    assert_eq!(operations.get(&groups, "P 1"), Some(&vec![identity]));
    assert_eq!(
        operations.get(&groups, "P2".to_string()),
        Some(&vec![identity, diagonal(-1.0, 1.0, -1.0)])
    );
    assert_eq!(operations.get(&groups, 0), None);
    assert_eq!(operations.get(&groups, 4), None);
    assert_eq!(operations.get(&groups, 259), None);
    assert_eq!(operations.get(&groups, "P3"), None);
    assert_eq!(operations.get(&groups, ""), None);
    assert_eq!(matrix_number(&identity), cgmath::Matrix4::from_scale(1.0));
}

#[test]
fn operations_missing_for_a_known_group() {
    let groups = symbols(&["P1", "P-1", "P2"]);
    let mut generators = SpaceGroupGenerators::new();
    generators.insert(1, vec![diagonal(1.0, 1.0, 1.0)]);
    // An entry for a number that the table of symbols does not have.
    generators.insert(9, vec![diagonal(1.0, 1.0, 1.0)]);
    assert!(generators.get(&groups, 1).is_some());
    assert_eq!(generators.get(&groups, 2), None);
    assert_eq!(generators.get(&groups, "P-1"), None);
    assert_eq!(generators.get(&groups, 9), None);
    let p = bits(cgmath::Point3::new(0.25, 0.5, 0.75));
    assert_eq!(
        generators.generate_symmetry_equivalent_points_from_point(&groups, 1, &vec![p]),
        Some(vec![p])
    );
    assert_eq!(
        generators.generate_symmetry_equivalent_points_from_point(&groups, 2, &vec![p]),
        None
    );
    assert_eq!(
        generators.generate_symmetry_equivalent_points_from_point(&groups, 9, &vec![p]),
        None
    );
    assert_eq!(
        generators.generate_symmetry_equivalent_points_from_point(&groups, "P 7", &vec![p]),
        None
    );
}

#[test]
fn entries_come_by_ascending_number_and_later_ones_replace() {
    let mut operations = SpaceGroupSymmetryOperations::new();
    assert!(operations.get_all().is_empty());
    let a = vec![diagonal(1.0, 1.0, 1.0)];
    let b = vec![diagonal(1.0, 1.0, 1.0), diagonal(-1.0, -1.0, -1.0)];
    let c = vec![diagonal(1.0, -1.0, 1.0)];
    operations.insert(227, a.clone());
    operations.insert(3, b.clone());
    operations.insert(0, Vec::new());
    operations.insert(255, c.clone());
    operations.insert(3, c.clone());
    let empty: Vec<Matrix4> = Vec::new();
    assert_eq!(
        operations.get_all(),
        vec![(0u8, &empty), (3, &c), (227, &a), (255, &c)]
    );
    let mut generators = SpaceGroupGenerators::new();
    generators.insert(2, b.clone());
    generators.insert(1, a.clone());
    assert_eq!(generators.get_all(), vec![(1u8, &a), (2, &b)]);
}

#[test]
fn equivalent_points_of_generators_from_images() {
    let groups = symbols(&["P1", "P-1", "P2"]);
    let mut generators = SpaceGroupGenerators::new();
    generators.insert(2, vec![diagonal(-1.0, -1.0, -1.0)]);
    let seed = cgmath::Point3::new(0.25, 0.5, 0.75);
    let images: Vec<Point3> = generators
        .get(&groups, "P -1")
        .unwrap()
        .iter()
        .flat_map(|m| {
            let image = matrix_number(m).transform_point(seed);
            trivial_translations()
                .iter()
                .map(|t| bits(matrix_number(t).transform_point(image)))
                .collect::<Vec<_>>()
        })
        .collect();
    assert_eq!(images.len(), 8);
    let orbit = generators
        .generate_symmetry_equivalent_points_from_point(&groups, "P -1", &images)
        .unwrap();
    assert_eq!(orbit.len(), 8);
    let numbers: Vec<_> = orbit.iter().map(|p| number(*p)).collect();
    assert!(numbers.contains(&cgmath::Point3::new(-0.25, -0.5, -0.75)));
    assert!(numbers.contains(&cgmath::Point3::new(0.75, 0.5, 0.25)));
    for pair in orbit.windows(2) {
        assert!(point_before(pair[0], pair[1]));
    }
}

#[test]
fn equivalent_points_of_several_seeds_are_merged() {
    let (groups, operations) = first_groups();
    let a = bits(cgmath::Point3::new(0.5, 0.5, 0.5));
    let b = bits(cgmath::Point3::new(-0.5, 0.5, -0.5));
    let c = bits(cgmath::Point3::new(0.25, 0.25, 0.25));
    let d = bits(cgmath::Point3::new(-0.25, 0.25, -0.25));
    let images = vec![vec![a, b], vec![c, d], vec![b, a], vec![]];
    let merged = operations
        .generate_symmetry_equivalent_points_from_points(&groups, "P 2", &images)
        .unwrap();
    let all = vec![a, b, c, d, b, a];
    assert_eq!(merged, Orbit::from_points(&all).into_values());
    assert_eq!(merged.len(), 4);
    assert_eq!(
        operations.generate_symmetry_equivalent_points_from_points(&groups, 3, &vec![vec![a, a]]),
        Some(vec![a])
    );
}

#[test]
fn equivalent_points_of_several_seeds_fail_as_a_whole() {
    let groups = symbols(&["P1", "P-1", "P2"]);
    let mut operations = SpaceGroupSymmetryOperations::new();
    operations.insert(1, vec![diagonal(1.0, 1.0, 1.0)]);
    let a = bits(cgmath::Point3::new(0.5, 0.5, 0.5));
    let images = vec![vec![a], vec![a]];
    // A group that the table does not know.
    assert_eq!(
        operations.generate_symmetry_equivalent_points_from_points(&groups, 4, &images),
        None
    );
    assert_eq!(
        operations.generate_symmetry_equivalent_points_from_points(&groups, "P4", &images),
        None
    );
    assert_eq!(
        operations.generate_symmetry_equivalent_points_from_points(&groups, 4, &Vec::new()),
        None
    );
    // A known group without operations: nothing, unless there is no seed at all.
    assert_eq!(
        operations.generate_symmetry_equivalent_points_from_points(&groups, 2, &images),
        None
    );
    assert_eq!(
        operations.generate_symmetry_equivalent_points_from_points(&groups, 2, &Vec::new()),
        Some(Vec::new())
    );
    assert_eq!(
        operations.generate_symmetry_equivalent_points_from_points(&groups, 1, &images),
        Some(vec![a])
    );
    assert_eq!(
        operations.generate_symmetry_equivalent_points_from_points(&groups, 1, &Vec::new()),
        Some(Vec::new())
    );
}

#[test]
fn trivial_translations_are_the_eight_unit_shifts() {
    let expected: [cgmath::Vector3<f64>; 8] = [
        cgmath::Vector3::new(0.0, 0.0, 0.0),
        cgmath::Vector3::new(1.0, 0.0, 0.0),
        cgmath::Vector3::new(0.0, 1.0, 0.0),
        cgmath::Vector3::new(0.0, 0.0, 1.0),
        cgmath::Vector3::new(1.0, 1.0, 0.0),
        cgmath::Vector3::new(0.0, 1.0, 1.0),
        cgmath::Vector3::new(1.0, 0.0, 1.0),
        cgmath::Vector3::new(1.0, 1.0, 1.0),
    ];
    let list = trivial_translations();
    assert_eq!(list.len(), 8);
    for (got, shift) in list.iter().zip(expected) {
        assert_eq!(*got, matrix_bits(cgmath::Matrix4::from_translation(shift)));
        assert_eq!(
            *got,
            Matrix4::from_translation(shift.x.to_bits(), shift.y.to_bits(), shift.z.to_bits())
        );
    }
    assert_eq!(list[0], Matrix4::identity());
    let moved = matrix_number(&list[6]).transform_point(cgmath::Point3::new(0.25, 0.5, 0.75));
    assert_eq!(moved, cgmath::Point3::new(1.25, 0.5, 1.75));
}

#[test]
fn translation_by_any_shift() {
    let shift: cgmath::Vector3<f64> = cgmath::Vector3::new(0.25, -1.5, 1e-3);
    assert_eq!(
        Matrix4::from_translation(shift.x.to_bits(), shift.y.to_bits(), shift.z.to_bits()),
        matrix_bits(cgmath::Matrix4::from_translation(shift))
    );
}
