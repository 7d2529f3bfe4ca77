use nebula_transport::de::datadeal::Value;
use nebula_transport::scan::{
    create_column, get_leader_map, CommonProp, EdgeItem, HostAddr, PartItem, Prop, ScanError,
    TagItem,
};
use nebula_transport::text::i32_to_string;
use nebula_transport::value::data_set::{DataSet, ValueSet};
use nebula_transport::value::row::{Row, Values};

fn tag(id: i32, name: &[u8], columns: &[&str]) -> TagItem {
    TagItem {
        tag_id: id,
        tag_name: name.to_vec(),
        columns: columns.iter().map(|column| column.as_bytes().to_vec()).collect(),
    }
}

fn edge(kind: i32, name: &[u8], columns: &[&str]) -> EdgeItem {
    EdgeItem {
        edge_type: kind,
        edge_name: name.to_vec(),
        columns: columns.iter().map(|column| column.as_bytes().to_vec()).collect(),
    }
}

#[test]
fn a_tag_asks_for_its_id_and_an_edge_for_its_ends() {
    let player = tag(7, b"player", &["name", "age"]);
    assert_eq!(
        player.get_props(),
        vec![b"_vid".to_vec(), b"name".to_vec(), b"age".to_vec()]
    );
    assert_eq!(player.get_name(), b"player".to_vec());
    assert_eq!(player.get_id(), 7);
    assert!(player.is_tag());
    assert_eq!(tag(1, b"t", &[]).get_props(), vec![b"_vid".to_vec()]);

    let serve = edge(-3, b"serve", &["start_year"]);
    assert_eq!(
        serve.get_props(),
        vec![
            b"_src".to_vec(),
            b"_type".to_vec(),
            b"_rank".to_vec(),
            b"_dst".to_vec(),
            b"start_year".to_vec()
        ]
    );
    assert_eq!(serve.get_name(), b"serve".to_vec());
    assert_eq!(serve.get_type(), -3);
    assert!(!serve.is_tag());
}

#[test]
fn the_column_of_the_first_item_of_that_name_is_made() {
    let tags = vec![tag(1, b"team", &["name"]), tag(2, b"player", &["name", "age"]), tag(3, b"player", &[])];
    match create_column(&tags, "player".to_owned()) {
        Ok(Some(Prop::VertexProp { tag, props })) => {
            assert_eq!(tag, 2);
            assert_eq!(props, vec![b"_vid".to_vec(), b"name".to_vec(), b"age".to_vec()]);
        }
        _ => panic!(),
    }
    let edges = vec![edge(5, b"follow", &["degree"]), edge(6, b"serve", &[])];
    match create_column(&edges, "follow".to_owned()) {
        Ok(Some(Prop::EdgeProp { edge_type, props })) => {
            assert_eq!(edge_type, 5);
            assert_eq!(props.len(), 5);
            assert_eq!(props[4], b"degree".to_vec());
        }
        _ => panic!(),
    }
    match create_column(&tags, "nobody".to_owned()) {
        Err(error @ ScanError::CreateColumnError) => {
            assert_eq!(error.to_string(), "Create Column Error")
        }
        _ => panic!(),
    }
    match create_column(&Vec::<TagItem>::new(), "player".to_owned()) {
        Err(ScanError::CreateColumnError) => {}
        _ => panic!(),
    }
    let broken = vec![tag(1, b"team", &[]), tag(2, b"pl\xffyer", &[]), tag(3, b"player", &[])];
    match create_column(&broken, "player".to_owned()) {
        Err(ScanError::Custom(message)) => assert_eq!(
            message,
            "Meta Transport Error: invalid utf-8 sequence of 1 bytes from index 2"
        ),
        _ => panic!(),
    }
    match create_column(&broken, "team".to_owned()) {
        Ok(Some(Prop::VertexProp { tag, .. })) => assert_eq!(tag, 1),
        _ => panic!(),
    }
    assert_eq!(
        ScanError::Custom("why".to_owned()).to_string(),
        "Custom Error: why"
    );
    assert_eq!(ScanError::GetLeaderMapError.to_string(), "Get Leader Map Error");
}

fn part(part_id: i32, leader: Option<(&str, i32)>) -> PartItem {
    PartItem {
        part_id,
        leader: leader.map(|(host, port)| HostAddr { host: host.to_owned(), port }),
    }
}

#[test]
fn each_part_is_led_by_the_leader_of_its_first_entry() {
    let parts = vec![
        part(1, Some(("a", 9779))),
        part(2, None),
        part(3, Some(("c", -1))),
        part(1, Some(("other", 1))),
        part(4, Some(("d", 0))),
    ];
    let map = get_leader_map(&parts, &vec![3, 1, 2, 5, 1]);
    let pairs: Vec<(i32, String)> = map.into_iter().collect();
    assert_eq!(pairs, vec![(1, "a:9779".to_owned()), (3, "c:-1".to_owned())]);
    assert!(get_leader_map(&parts, &Vec::new()).is_empty());
    assert!(get_leader_map(&Vec::new(), &vec![1, 2]).is_empty());
    let all = get_leader_map(&parts, &vec![4, 3, 2, 1]);
    assert_eq!(all.len(), 3);
    assert_eq!(all[&4], "d:0");
    assert_eq!(i32_to_string(i32::MIN), "-2147483648");
    assert_eq!(i32_to_string(65536), "65536");
}

#[test]
fn rows_and_data_sets_are_built_by_hand() {
    let values = vec![Value::Int(1), Value::Bytes(b"x".to_vec()), Value::Float("1.5".to_owned())];
    let row = <Values as Row>::new(&values);
    assert_eq!(Row::len(&row), 3);
    assert!(matches!(row.values[0], Value::Int(1)));
    assert!(matches!(&row.values[1], Value::Bytes(bytes) if bytes == b"x"));
    assert!(matches!(&row.values[2], Value::Float(shown) if shown == "1.5"));
    let empty = <Values as Row>::new(&[]);
    assert_eq!(Row::len(&empty), 0);
    let moved = Values::from_vec(values);
    assert_eq!(Row::len(&moved), 3);
    assert!(matches!(Value::Other.copy(), Value::Other));
    assert!(matches!(
        Value::Date { year: 1, month: 2, day: 3 }.copy(),
        Value::Date { year: 1, month: 2, day: 3 }
    ));

    let names = vec!["name".to_owned(), "名".to_owned()];
    let mut set = <ValueSet as DataSet>::new(&names);
    assert_eq!(set.cols_len(), 2);
    assert_eq!(DataSet::len(&set), 0);
    assert_eq!(set.column_names, vec![b"name".to_vec(), "名".as_bytes().to_vec()]);
    set.push(row);
    set.push(empty);
    assert_eq!(DataSet::len(&set), 2);
    assert_eq!(set.cols_len(), 2);
    assert_eq!(Row::len(&set.rows[0]), 3);
    assert_eq!(Row::len(&set.rows[1]), 0);
    let other = ValueSet::from_columns_name(Vec::new());
    assert_eq!(other.cols_len(), 0);
    assert_eq!(DataSet::len(&other), 0);
}
