//! What a scan of the storage service has to know before it asks: which properties a
//! tag or an edge type has, and which host leads each part.

pub mod ordered;

use crate::scan::ordered::put;
use crate::text::i32_to_string;
use crate::text::padded_text;
use crate::text::string_from_utf8;
use crate::text::utf8_error_text;
use std::collections::BTreeMap;
use vstd::prelude::*;
use vstd::slice::slice_to_vec;
use vstd::string::StringExecFns;
use vstd::string::StringSliceAdditionalSpecFns;
use vstd::utf8::decode_utf8;
use vstd::utf8::valid_utf8;

verus! {

/// The bytes of each of some names.
pub open spec fn names(items: Seq<Vec<u8>>) -> Seq<Seq<u8>> {
    items.map_values(|item: Vec<u8>| item@)
}

/// What a tag and an edge type have in common for a scan.
pub trait CommonProp {
    /// Is this a tag?
    spec fn tagged(&self) -> bool;

    /// The name of the tag or of the edge type.
    spec fn name(&self) -> Seq<u8>;

    /// The id of a tag.
    spec fn id(&self) -> i32;

    /// The type of an edge type.
    spec fn kind(&self) -> i32;

    /// The names of the properties to ask for: the ones that every vertex or edge has,
    /// and then the columns of the schema.
    spec fn props(&self) -> Seq<Seq<u8>>;

    fn get_props(&self) -> (props: Vec<Vec<u8>>)
        ensures
            names(props@) == self.props(),
    ;

    fn get_name(&self) -> (name: Vec<u8>)
        ensures
            name@ == self.name(),
    ;

    /// The id, which only a tag has.
    fn get_id(&self) -> (id: i32)
        requires
            self.tagged(),
        ensures
            id == self.id(),
    ;

    /// The type, which only an edge type has.
    fn get_type(&self) -> (kind: i32)
        requires
            !self.tagged(),
        ensures
            kind == self.kind(),
    ;

    fn is_tag(&self) -> (tag: bool)
        ensures
            tag == self.tagged(),
    ;
}

/// A tag with the names of the columns of its schema.
#[derive(Debug)]
pub struct TagItem {
    pub tag_id: i32,
    pub tag_name: Vec<u8>,
    pub columns: Vec<Vec<u8>>,
}

/// An edge type with the names of the columns of its schema.
#[derive(Debug)]
pub struct EdgeItem {
    pub edge_type: i32,
    pub edge_name: Vec<u8>,
    pub columns: Vec<Vec<u8>>,
}

/// `fixed` and then a copy of each of `columns`.
fn with_columns(fixed: Vec<Vec<u8>>, columns: &Vec<Vec<u8>>) -> (props: Vec<Vec<u8>>)
    ensures
        names(props@) == names(fixed@) + names(columns@),
{
    let mut props = fixed;
    let mut index: usize = 0;
    assert(names(props@) =~= names(fixed@) + names(columns@).take(0));
    while index < columns.len()
        invariant
            index <= columns@.len(),
            names(props@) == names(fixed@) + names(columns@).take(index as int),
        decreases columns@.len() - index,
    {
        let ghost before = names(props@);
        props.push(slice_to_vec(columns[index].as_slice()));
        index += 1;
        assert(names(props@) =~= before.push(columns@[index - 1]@));
        assert(names(props@) =~= names(fixed@) + names(columns@).take(index as int));
    }
    assert(names(columns@).take(index as int) =~= names(columns@));
    props
}

impl CommonProp for TagItem {
    open spec fn tagged(&self) -> bool {
        true
    }

    open spec fn name(&self) -> Seq<u8> {
        self.tag_name@
    }

    open spec fn id(&self) -> i32 {
        self.tag_id
    }

    open spec fn kind(&self) -> i32 {
        0
    }

    open spec fn props(&self) -> Seq<Seq<u8>> {
        seq!["_vid".spec_bytes()] + names(self.columns@)
    }

    fn get_props(&self) -> (props: Vec<Vec<u8>>) {
        let mut fixed: Vec<Vec<u8>> = Vec::new();
        fixed.push(slice_to_vec("_vid".as_bytes()));
        assert(names(fixed@) =~= seq!["_vid".spec_bytes()]);
        with_columns(fixed, &self.columns)
    }

    fn get_name(&self) -> (name: Vec<u8>) {
        slice_to_vec(self.tag_name.as_slice())
    }

    fn get_id(&self) -> (id: i32) {
        self.tag_id
    }

    /// A tag has no type: this is never called.
    fn get_type(&self) -> (kind: i32) {
        0
    }

    fn is_tag(&self) -> (tag: bool) {
        true
    }
}

impl CommonProp for EdgeItem {
    open spec fn tagged(&self) -> bool {
        false
    }

    open spec fn name(&self) -> Seq<u8> {
        self.edge_name@
    }

    open spec fn id(&self) -> i32 {
        0
    }

    open spec fn kind(&self) -> i32 {
        self.edge_type
    }

    open spec fn props(&self) -> Seq<Seq<u8>> {
        seq![
            "_src".spec_bytes(),
            "_type".spec_bytes(),
            "_rank".spec_bytes(),
            "_dst".spec_bytes(),
        ] + names(self.columns@)
    }

    fn get_props(&self) -> (props: Vec<Vec<u8>>) {
        let mut fixed: Vec<Vec<u8>> = Vec::new();
        fixed.push(slice_to_vec("_src".as_bytes()));
        fixed.push(slice_to_vec("_type".as_bytes()));
        fixed.push(slice_to_vec("_rank".as_bytes()));
        fixed.push(slice_to_vec("_dst".as_bytes()));
        assert(names(fixed@) =~= seq![
            "_src".spec_bytes(),
            "_type".spec_bytes(),
            "_rank".spec_bytes(),
            "_dst".spec_bytes(),
        ]);
        with_columns(fixed, &self.columns)
    }

    fn get_name(&self) -> (name: Vec<u8>) {
        slice_to_vec(self.edge_name.as_slice())
    }

    /// An edge type has no id: this is never called.
    fn get_id(&self) -> (id: i32) {
        0
    }

    fn get_type(&self) -> (kind: i32) {
        self.edge_type
    }

    fn is_tag(&self) -> (tag: bool) {
        false
    }
}

/// What to ask a scan for.
#[derive(Debug)]
pub enum Prop {
    VertexProp { tag: i32, props: Vec<Vec<u8>> },
    EdgeProp { edge_type: i32, props: Vec<Vec<u8>> },
}

/// What to ask a scan for, as contracts speak of it.
pub enum PropView {
    VertexProp { tag: i32, props: Seq<Seq<u8>> },
    EdgeProp { edge_type: i32, props: Seq<Seq<u8>> },
}

impl View for Prop {
    type V = PropView;

    open spec fn view(&self) -> PropView {
        match self {
            Prop::VertexProp { tag, props } => PropView::VertexProp {
                tag: *tag,
                props: names(props@),
            },
            Prop::EdgeProp { edge_type, props } => PropView::EdgeProp {
                edge_type: *edge_type,
                props: names(props@),
            },
        }
    }
}

/// Why a scan could not be prepared.
#[derive(Debug)]
pub enum ScanError {
    CreateColumnError,
    GetLeaderMapError,
    Custom(String),
}

/// Why a scan could not be prepared, as contracts speak of it.
pub enum ScanErrorView {
    CreateColumnError,
    GetLeaderMapError,
    Custom(Seq<char>),
}

impl View for ScanError {
    type V = ScanErrorView;

    open spec fn view(&self) -> ScanErrorView {
        match self {
            ScanError::CreateColumnError => ScanErrorView::CreateColumnError,
            ScanError::GetLeaderMapError => ScanErrorView::GetLeaderMapError,
            ScanError::Custom(message) => ScanErrorView::Custom(message@),
        }
    }
}

impl ScanError {
    /// This error as it is shown.
    pub open spec fn text(self) -> Seq<char> {
        match self {
            ScanError::CreateColumnError => "Create Column Error"@,
            ScanError::GetLeaderMapError => "Get Leader Map Error"@,
            ScanError::Custom(message) => "Custom Error: "@ + message@,
        }
    }

    /// This error as it is shown.
    pub fn to_string(&self) -> (text: String)
        ensures
            text@ == self.text(),
    {
        match self {
            ScanError::CreateColumnError => String::from_str("Create Column Error"),
            ScanError::GetLeaderMapError => String::from_str("Get Leader Map Error"),
            ScanError::Custom(message) => String::from_str("Custom Error: ").concat(
                message.as_str(),
            ),
        }
    }
}

/// What to ask for of `item`: of a tag its id, of an edge type its type, and of both
/// their properties.
pub open spec fn prop_of<T: CommonProp>(item: T) -> PropView {
    if item.tagged() {
        PropView::VertexProp { tag: item.id(), props: item.props() }
    } else {
        PropView::EdgeProp { edge_type: item.kind(), props: item.props() }
    }
}

/// What to ask for of the first of `items` from `from` on that bears the name
/// `target`. A name before it that is no valid UTF-8 ends the search with the
/// complaint about it; no such item at all is an error of its own.
pub open spec fn column_of<T: CommonProp>(items: Seq<T>, target: Seq<char>, from: int) -> Result<
    PropView,
    ScanErrorView,
>
    decreases items.len() - from,
{
    if from < 0 || from >= items.len() {
        Err(ScanErrorView::CreateColumnError)
    } else if !valid_utf8(items[from].name()) {
        Err(
            ScanErrorView::Custom(
                "Meta Transport Error: "@ + utf8_error_text(items[from].name()),
            ),
        )
    } else if decode_utf8(items[from].name()) == target {
        Ok(prop_of(items[from]))
    } else {
        column_of(items, target, from + 1)
    }
}

/// What became of the search, as contracts speak of it.
pub open spec fn column_view(column: Result<Option<Prop>, ScanError>) -> Option<
    Result<PropView, ScanErrorView>,
> {
    match column {
        Ok(Some(prop)) => Some(Ok(prop@)),
        Ok(None) => None,
        Err(error) => Some(Err(error@)),
    }
}

/// What to ask a scan for of the tag or edge type named `target_name` among `items`.
pub fn create_column<T: CommonProp>(items: &Vec<T>, target_name: String) -> (column: Result<
    Option<Prop>,
    ScanError,
>)
    ensures
        column_view(column) == Some(column_of(items@, target_name@, 0)),
{
    let mut index: usize = 0;
    while index < items.len()
        invariant
            index <= items@.len(),
            column_of(items@, target_name@, 0) == column_of(items@, target_name@, index as int),
        decreases items@.len() - index,
    {
        let item = &items[index];
        let name = item.get_name();
        let name_str = match string_from_utf8(name.as_slice()) {
            Ok(text) => text,
            Err(complaint) => {
                return Err(
                    ScanError::Custom(
                        String::from_str("Meta Transport Error: ").concat(complaint.as_str()),
                    ),
                );
            },
        };
        if name_str == target_name {
            let props = item.get_props();
            if item.is_tag() {
                return Ok(Some(Prop::VertexProp { tag: item.get_id(), props }));
            } else {
                return Ok(Some(Prop::EdgeProp { edge_type: item.get_type(), props }));
            }
        }
        index += 1;
    }
    Err(ScanError::CreateColumnError)
}

/// A host and the port that it listens on.
#[derive(Debug)]
pub struct HostAddr {
    pub host: String,
    pub port: i32,
}

/// A part and the host that leads it, where one does.
#[derive(Debug)]
pub struct PartItem {
    pub part_id: i32,
    pub leader: Option<HostAddr>,
}

/// The address of a host: its name, a colon, and its port in decimal.
pub open spec fn address_text(leader: HostAddr) -> Seq<char> {
    leader.host@ + ":"@ + padded_text(leader.port as int, 0)
}

/// The position from `from` on of the first of `parts` with the id `part_id`, or how
/// many parts there are where none has it.
pub open spec fn find_part(parts: Seq<PartItem>, part_id: i32, from: int) -> int
    decreases parts.len() - from,
{
    if from < 0 || from >= parts.len() {
        parts.len() as int
    } else if parts[from].part_id == part_id {
        from
    } else {
        find_part(parts, part_id, from + 1)
    }
}

/// The leaders of the first `count` of `parts_id`: each id with the address of the host
/// that leads the first part of that id, where there is such a part and it has a
/// leader.
pub open spec fn leaders(parts: Seq<PartItem>, parts_id: Seq<i32>, count: int) -> Map<
    i32,
    Seq<char>,
>
    decreases count,
{
    if count <= 0 {
        Map::empty()
    } else {
        let before = leaders(parts, parts_id, count - 1);
        let at = find_part(parts, parts_id[count - 1], 0);
        if at < parts.len() && parts[at].leader is Some {
            before.insert(parts_id[count - 1], address_text(parts[at].leader->Some_0))
        } else {
            before
        }
    }
}

/// The texts in a map.
pub open spec fn map_texts(map: Map<i32, String>) -> Map<i32, Seq<char>> {
    map.map_values(|text: String| text@)
}

/// The position of the first of `parts` with the id `part_id`.
fn position_of(parts: &Vec<PartItem>, part_id: i32) -> (at: usize)
    ensures
        at == find_part(parts@, part_id, 0),
        at <= parts@.len(),
{
    let mut at: usize = 0;
    while at < parts.len()
        invariant
            at <= parts@.len(),
            find_part(parts@, part_id, 0) == find_part(parts@, part_id, at as int),
        decreases parts@.len() - at,
    {
        if parts[at].part_id == part_id {
            return at;
        }
        at += 1;
    }
    at
}

/// Which host leads each of the parts `parts_id`, as far as `parts` tells.
pub fn get_leader_map(parts: &Vec<PartItem>, parts_id: &Vec<i32>) -> (leader_map: BTreeMap<
    i32,
    String,
>)
    ensures
        map_texts(leader_map@) == leaders(parts@, parts_id@, parts_id@.len() as int),
{
    let mut leader_map: BTreeMap<i32, String> = BTreeMap::new();
    let mut index: usize = 0;
    assert(map_texts(leader_map@) =~= Map::<i32, Seq<char>>::empty());
    while index < parts_id.len()
        invariant
            index <= parts_id@.len(),
            map_texts(leader_map@) == leaders(parts@, parts_id@, index as int),
        decreases parts_id@.len() - index,
    {
        let part_id = parts_id[index];
        let at = position_of(parts, part_id);
        if at < parts.len() {
            match &parts[at].leader {
                Some(leader) => {
                    let leader_str = leader.host.clone().concat(":").concat(
                        i32_to_string(leader.port).as_str(),
                    );
                    let ghost before = map_texts(leader_map@);
                    put(&mut leader_map, part_id, leader_str);
                    assert(map_texts(leader_map@) =~= before.insert(part_id, leader_str@));
                },
                None => {},
            }
        }
        index += 1;
    }
    leader_map
}

} // verus!
