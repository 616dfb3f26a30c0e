use diesel_dynamic_schema::dynamic_select::DynamicSelectClause;
use diesel_dynamic_schema::dynamic_value::{
    Any, DynamicRow, NamedField, RawColumn, RowError, UNNAMED_COLUMN,
};
use diesel_dynamic_schema::{table, Table};
use std::cell::Cell;

/// What a backend hands over for one value: a type code and the bytes.
struct Raw {
    type_code: u32,
    bytes: Vec<u8>,
}

const TEXT: u32 = 25;
const INTEGER: u32 = 23;

#[derive(Debug, PartialEq, Clone)]
enum Value {
    Text(String),
    Integer(i32),
    Null,
}

fn decode(raw: Option<Raw>) -> Result<Value, String> {
    match raw {
        None => Ok(Value::Null),
        Some(raw) => match raw.type_code {
            TEXT => String::from_utf8(raw.bytes)
                .map(Value::Text)
                .map_err(|_| "text is not UTF-8".to_owned()),
            INTEGER => match <[u8; 4]>::try_from(raw.bytes.as_slice()) {
                Ok(bytes) => Ok(Value::Integer(i32::from_be_bytes(bytes))),
                Err(_) => Err("an integer has four bytes".to_owned()),
            },
            code => Err(format!("Unknown type: {}", code)),
        },
    }
}

fn text(name: Option<&str>, value: &str) -> RawColumn<Raw> {
    RawColumn {
        name: name.map(|name| name.to_owned()),
        value: Some(Raw {
            type_code: TEXT,
            bytes: value.as_bytes().to_vec(),
        }),
    }
}

fn integer(name: Option<&str>, value: i32) -> RawColumn<Raw> {
    RawColumn {
        name: name.map(|name| name.to_owned()),
        value: Some(Raw {
            type_code: INTEGER,
            bytes: value.to_be_bytes().to_vec(),
        }),
    }
}

fn null(name: Option<&str>) -> RawColumn<Raw> {
    RawColumn {
        name: name.map(|name| name.to_owned()),
        value: None,
    }
}

fn of_type(name: Option<&str>, type_code: u32) -> RawColumn<Raw> {
    RawColumn {
        name: name.map(|name| name.to_owned()),
        value: Some(Raw {
            type_code,
            bytes: vec![1, 2, 3],
        }),
    }
}

fn field(name: &str, value: i32) -> NamedField<i32> {
    NamedField {
        name: name.to_owned(),
        value,
    }
}

#[test]
fn get_is_none_where_the_row_has_no_such_value() {
    let row = DynamicRow::from(vec![10, 20, 30]);
    assert_eq!(row.len(), 3);
    assert_eq!(row.get(0), Some(&10));
    assert_eq!(row.get(2), Some(&30));
    assert_eq!(row.get(3), None);
    assert_eq!(row.get(usize::MAX), None);

    let empty = DynamicRow::<i32>::from(Vec::new());
    assert_eq!(empty.len(), 0);
    assert_eq!(empty.get(0), None);
}

#[test]
fn index_gives_the_value_at_a_position() {
    let row = DynamicRow::from(vec!["a", "b", "c"]);
    assert_eq!(row[0], "a");
    assert_eq!(row[1], "b");
    assert_eq!(row[2], "c");
    assert_eq!(Some(&row[1]), row.get(1));
}

#[test]
fn lookup_by_name_takes_the_first_field_of_that_name() {
    let row = DynamicRow::from(vec![
        field("id", 1),
        field("name", 2),
        field("id", 3),
        field("", 4),
    ]);
    assert_eq!(row.get_by_name("id"), Some(&1));
    assert_eq!(row.get_by_name("name"), Some(&2));
    assert_eq!(row.get_by_name(""), Some(&4));
    assert_eq!(row["id"], 1);
    assert_eq!(row["name"], 2);
    assert_eq!(row[2], field("id", 3));
}

#[test]
fn lookup_by_name_is_none_where_no_field_has_the_name() {
    let row = DynamicRow::from(vec![field("id", 1), field("name", 2)]);
    assert_eq!(row.get_by_name("hair_color"), None);
    assert_eq!(row.get_by_name("ID"), None);
    assert_eq!(row.get_by_name("i"), None);
    assert_eq!(row.get_by_name("idx"), None);

    let empty = DynamicRow::<NamedField<i32>>::from(Vec::new());
    assert_eq!(empty.get_by_name("id"), None);
}

#[test]
fn row_is_walked_in_the_order_of_its_values() {
    let row = DynamicRow::from(vec![3, 1, 2]);
    let mut by_reference = Vec::new();
    for value in &row {
        by_reference.push(*value);
    }
    assert_eq!(by_reference, vec![3, 1, 2]);

    let mut by_value = Vec::new();
    for value in row.clone() {
        by_value.push(value);
    }
    assert_eq!(by_value, vec![3, 1, 2]);
    assert_eq!(row.into_iter().collect::<Vec<i32>>(), vec![3, 1, 2]);
}

#[test]
fn clone_holds_the_same_values() {
    let row = DynamicRow::from(vec![field("a", 1), field("b", 2)]);
    let copy = row.clone();
    assert_eq!(copy.len(), 2);
    assert_eq!(copy[0], row[0]);
    assert_eq!(copy[1], field("b", 2));
    assert_eq!(row[0].clone(), field("a", 1));
}

#[test]
fn every_column_is_decoded_in_order() {
    let columns = vec![integer(None, 1), text(None, "Sean"), null(None)];
    let row = DynamicRow::build_from_row(columns, decode).unwrap();
    assert_eq!(row.len(), 3);
    assert_eq!(row[0], Value::Integer(1));
    assert_eq!(row[1], Value::Text("Sean".to_owned()));
    assert_eq!(row[2], Value::Null);

    let none = DynamicRow::build_from_row(Vec::new(), decode).unwrap();
    assert_eq!(none.len(), 0);
}

#[test]
fn decoding_stops_at_the_first_column_that_is_refused() {
    let calls = Cell::new(0);
    let counting = |raw: Option<Raw>| {
        calls.set(calls.get() + 1);
        decode(raw)
    };
    let columns = vec![
        integer(None, 1),
        of_type(None, 1043),
        of_type(None, 9999),
        text(None, "never read"),
    ];
    let result = DynamicRow::build_from_row(columns, counting);
    assert_eq!(result.unwrap_err(), "Unknown type: 1043");
    assert_eq!(calls.get(), 2);
}

#[test]
fn names_are_kept_with_the_values_in_column_order() {
    let columns = vec![
        integer(Some("id"), 2),
        text(Some("name"), "Tess"),
        null(Some("hair_color")),
    ];
    let row = DynamicRow::build_named_from_row(columns, decode).unwrap();
    assert_eq!(row.len(), 3);
    assert_eq!(
        row[0],
        NamedField {
            name: "id".to_owned(),
            value: Value::Integer(2)
        }
    );
    assert_eq!(
        row[1],
        NamedField {
            name: "name".to_owned(),
            value: Value::Text("Tess".to_owned())
        }
    );
    assert_eq!(
        row[2],
        NamedField {
            name: "hair_color".to_owned(),
            value: Value::Null
        }
    );
    assert_eq!(row["hair_color"], Value::Null);
    assert_eq!(row["id"], Value::Integer(2));
    assert_eq!(row.get_by_name("name"), Some(&Value::Text("Tess".to_owned())));
}

#[test]
fn columns_of_one_name_are_all_kept_and_the_first_is_found() {
    let columns = vec![
        integer(Some("n"), 1),
        integer(Some("n"), 2),
        integer(Some("m"), 3),
    ];
    let row = DynamicRow::build_named_from_row(columns, decode).unwrap();
    assert_eq!(row.len(), 3);
    assert_eq!(row["n"], Value::Integer(1));
    assert_eq!(row[1].value, Value::Integer(2));
    assert_eq!(row[1].name, "n");
    assert_eq!(row["m"], Value::Integer(3));
}

#[test]
fn column_without_a_name_fails_a_row_with_names() {
    let calls = Cell::new(0);
    let counting = |raw: Option<Raw>| {
        calls.set(calls.get() + 1);
        decode(raw)
    };
    let columns = vec![
        integer(Some("id"), 1),
        text(None, "Sean"),
        of_type(Some("odd"), 9999),
    ];
    let result = DynamicRow::build_named_from_row(columns, counting);
    assert!(matches!(result, Err(RowError::UnnamedColumn)));
    assert_eq!(calls.get(), 1);
}

#[test]
fn name_is_asked_for_before_the_value_is_decoded() {
    let columns = vec![of_type(None, 9999)];
    let result = DynamicRow::build_named_from_row(columns, decode);
    assert!(matches!(result, Err(RowError::UnnamedColumn)));

    let columns = vec![of_type(Some("odd"), 9999), text(None, "Sean")];
    match DynamicRow::build_named_from_row(columns, decode) {
        Err(RowError::Decode(message)) => assert_eq!(message, "Unknown type: 9999"),
        other => panic!("expected a decode error, got {:?}", other.map(|row| row.len())),
    }
}

#[test]
fn column_without_a_name_is_no_error_for_a_row_by_position() {
    let columns = vec![integer(None, 5), text(Some("name"), "Sean")];
    let row = DynamicRow::build_from_row(columns, decode).unwrap();
    assert_eq!(row[0], Value::Integer(5));
    assert_eq!(row[1], Value::Text("Sean".to_owned()));
}

#[test]
fn message_for_an_unnamed_column() {
    assert_eq!(UNNAMED_COLUMN, "Request name for an unnamed column");
}

#[test]
fn null_decodes_to_what_the_decoder_has_for_null() {
    let row = DynamicRow::build_from_row(vec![null(None)], decode).unwrap();
    assert_eq!(row[0], Value::Null);
    let row = DynamicRow::build_from_row(vec![null(None)], |raw: Option<Raw>| {
        Ok::<Option<u32>, String>(raw.map(|raw| raw.type_code))
    })
    .unwrap();
    assert_eq!(row[0], None);
}

#[test]
fn known_type_code_decodes_to_its_variant() {
    let row = DynamicRow::build_from_row(vec![integer(None, -7), text(None, "")], decode).unwrap();
    assert_eq!(row[0], Value::Integer(-7));
    assert_eq!(row[1], Value::Text(String::new()));
}

#[test]
fn unknown_type_code_is_a_decode_error() {
    let result = DynamicRow::build_from_row(vec![of_type(None, 1700)], decode);
    assert_eq!(result.unwrap_err(), "Unknown type: 1700");

    let malformed = RawColumn {
        name: None,
        value: Some(Raw {
            type_code: INTEGER,
            bytes: vec![1],
        }),
    };
    let result = DynamicRow::build_from_row(vec![malformed], decode);
    assert_eq!(result.unwrap_err(), "an integer has four bytes");
}

#[test]
fn row_has_one_value_for_each_field_of_the_select_list() {
    let users = table("users");
    let names = ["id", "name", "hair_color"];
    let mut select = DynamicSelectClause::<Table<&str>>::new();
    for name in names {
        select.add_field(users.column::<Any, _>(name));
    }
    let columns = vec![
        integer(Some("id"), 1),
        text(Some("name"), "Sean"),
        null(Some("hair_color")),
    ];
    let row = DynamicRow::build_named_from_row(columns, decode).unwrap();
    assert_eq!(row.len(), select.len());
    let expected = [
        Value::Integer(1),
        Value::Text("Sean".to_owned()),
        Value::Null,
    ];
    for i in 0..select.len() {
        assert_eq!(row[i].name, names[i]);
        assert_eq!(row[i].value, expected[i]);
        assert_eq!(row[names[i]], expected[i]);
        assert_eq!(row.get_by_name(names[i]), Some(&row[i].value));
    }
}
