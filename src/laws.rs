//! Laws of the importers, proved from their contracts.
use vstd::prelude::*;
use crate::ids::{ElementId, IdPolicy, given_uuid, id_rule, is_hyphenated_uuid, hex_value, uuid_digits};
use crate::layout::{
    via_layer_names, known_pad_shape, known_pad_type, PadShape, PadType, ViaType,
    Layout, PlacedComponent, Pad, Trace, Via, Zone, pcb_import_ok, board_complete,
    segment_complete, via_complete, opt_text,
};
use crate::library::{Component, Pin, PinType, library_import_ok, entries_map, rec_find, known_pin_token};
use crate::geometry::text_or;
use crate::parser::parse_text;
use crate::schematic::{
    SchematicSheet, PlacedSymbol, Wire, NetLabel, PowerSymbol, Bus, schematic_import_ok,
    power_indices,
};
use crate::sexpr::{Tree, KicadError, find_all_spec, find_spec, get_atom_spec, tag_of};

verus! {

/// Two identifiers of one element agree when the document gave it, or when
/// fallbacks are derived rather than random.
pub open spec fn same_id(a: ElementId, b: ElementId, given: Option<u128>, policy: IdPolicy) -> bool {
    (given is Some || policy is Derived) ==> a == b
}

pub open spec fn same_symbol(a: PlacedSymbol, b: PlacedSymbol, e: Tree, policy: IdPolicy) -> bool {
    &&& same_id(a.id, b.id, given_uuid(e), policy)
    &&& a.reference@ == b.reference@
    &&& a.value@ == b.value@
    &&& a.library@ == b.library@
    &&& a.symbol_name@ == b.symbol_name@
    &&& a.position == b.position
    &&& a.rotation == b.rotation
    &&& a.mirror_x == b.mirror_x
    &&& a.mirror_y == b.mirror_y
    &&& a.unit == b.unit
}

pub open spec fn same_wire(a: Wire, b: Wire, e: Tree, policy: IdPolicy) -> bool {
    same_id(a.id, b.id, given_uuid(e), policy) && a.start == b.start && a.end == b.end
}

pub open spec fn same_label(a: NetLabel, b: NetLabel) -> bool {
    a.name@ == b.name@ && a.position == b.position && a.label_type == b.label_type && a.rotation
        == b.rotation
}

pub open spec fn same_power(a: PowerSymbol, b: PowerSymbol, e: Tree, policy: IdPolicy) -> bool {
    &&& same_id(a.id, b.id, given_uuid(e), policy)
    &&& a.net_name@ == b.net_name@
    &&& a.position == b.position
    &&& a.rotation == b.rotation
    &&& a.style == b.style
}

pub open spec fn same_bus(a: Bus, b: Bus, e: Tree, policy: IdPolicy) -> bool {
    &&& same_id(a.id, b.id, given_uuid(e), policy)
    &&& a.name@ == b.name@
    &&& a.segments@.len() == b.segments@.len()
    &&& forall|j: int| 0 <= j < a.segments@.len() ==> #[trigger] a.segments@[j] == b.segments@[j]
}

/// Two sheets imported from one document agree in every collection's
/// length, every field and every identifier the document gave.
pub open spec fn sheets_agree(a: SchematicSheet, b: SchematicSheet, root: Tree, policy: IdPolicy) -> bool {
    let syms = find_all_spec(root, "symbol"@);
    let wires = find_all_spec(root, "wire"@);
    let juncs = find_all_spec(root, "junction"@);
    let ncs = find_all_spec(root, "no_connect"@);
    let buses = find_all_spec(root, "bus"@);
    let pw = power_indices(syms, syms.len() as int);
    &&& same_id(a.id, b.id, given_uuid(root), policy)
    &&& a.name@ == b.name@
    &&& a.symbols@.len() == b.symbols@.len()
    &&& forall|k: int|
        0 <= k < a.symbols@.len() ==> same_symbol(#[trigger] a.symbols@[k], b.symbols@[k], syms[k], policy)
    &&& a.wires@.len() == b.wires@.len()
    &&& forall|k: int|
        0 <= k < a.wires@.len() ==> same_wire(#[trigger] a.wires@[k], b.wires@[k], wires[k], policy)
    &&& a.labels@.len() == b.labels@.len()
    &&& forall|k: int| 0 <= k < a.labels@.len() ==> same_label(#[trigger] a.labels@[k], b.labels@[k])
    &&& a.junctions@.len() == b.junctions@.len()
    &&& forall|k: int|
        0 <= k < a.junctions@.len() ==> same_id(
            (#[trigger] a.junctions@[k]).id,
            b.junctions@[k].id,
            given_uuid(juncs[k]),
            policy,
        ) && a.junctions@[k].position == b.junctions@[k].position
    &&& a.no_connects@.len() == b.no_connects@.len()
    &&& forall|k: int|
        0 <= k < a.no_connects@.len() ==> same_id(
            (#[trigger] a.no_connects@[k]).id,
            b.no_connects@[k].id,
            given_uuid(ncs[k]),
            policy,
        ) && a.no_connects@[k].position == b.no_connects@[k].position
    &&& a.power_symbols@.len() == b.power_symbols@.len()
    &&& forall|k: int|
        0 <= k < a.power_symbols@.len() ==> same_power(
            #[trigger] a.power_symbols@[k],
            b.power_symbols@[k],
            syms[pw[k]],
            policy,
        )
    &&& a.buses@.len() == b.buses@.len()
    &&& forall|k: int|
        0 <= k < a.buses@.len() ==> same_bus(#[trigger] a.buses@[k], b.buses@[k], buses[k], policy)
}

/// Importing one schematic text twice gives the same outcome: both fail, or
/// both give sheets that agree in lengths, fields and given identifiers (and
/// in all identifiers when fallbacks are derived).
pub proof fn lemma_schematic_reimport(
    content: Seq<char>,
    policy: IdPolicy,
    a: Result<SchematicSheet, KicadError>,
    b: Result<SchematicSheet, KicadError>,
)
    requires
        schematic_import_ok(content, policy, a),
        schematic_import_ok(content, policy, b),
    ensures
        a is Ok <==> b is Ok,
        a is Ok ==> sheets_agree(a->Ok_0, b->Ok_0, parse_text(content)->Some_0, policy),
{
}

pub open spec fn same_pin(a: Pin, b: Pin) -> bool {
    a.id@ == b.id@ && a.name@ == b.name@ && opt_text(a.net) == opt_text(b.net) && a.pin_type
        == b.pin_type
}

pub open spec fn same_component(a: Component, b: Component, e: Tree, policy: IdPolicy) -> bool {
    &&& same_id(a.id, b.id, given_uuid(e), policy)
    &&& a.component_type@ == b.component_type@
    &&& a.reference@ == b.reference@
    &&& a.pins@.len() == b.pins@.len()
    &&& forall|j: int| 0 <= j < a.pins@.len() ==> same_pin(#[trigger] a.pins@[j], b.pins@[j])
    &&& entries_map(a.properties@) == entries_map(b.properties@)
}

/// Importing one symbol library twice gives the same outcome, with
/// components that agree in pins and properties.
pub proof fn lemma_library_reimport(
    content: Seq<char>,
    policy: IdPolicy,
    a: Result<Vec<Component>, KicadError>,
    b: Result<Vec<Component>, KicadError>,
)
    requires
        library_import_ok(content, policy, a),
        library_import_ok(content, policy, b),
    ensures
        a is Ok <==> b is Ok,
        a is Ok ==> a->Ok_0@.len() == b->Ok_0@.len() && forall|k: int|
            0 <= k < a->Ok_0@.len() ==> same_component(
                #[trigger] a->Ok_0@[k],
                b->Ok_0@[k],
                find_all_spec(parse_text(content)->Some_0, "symbol"@)[k],
                policy,
            ),
{
    if a is Ok {
        let root = parse_text(content)->Some_0;
        let syms = find_all_spec(root, "symbol"@);
        assert forall|k: int| 0 <= k < a->Ok_0@.len() implies same_component(
            #[trigger] a->Ok_0@[k],
            b->Ok_0@[k],
            syms[k],
            policy,
        ) by {
            let (x, y) = (a->Ok_0@[k], b->Ok_0@[k]);
            assert(x.pins@.len() == y.pins@.len());
            assert forall|j: int| 0 <= j < x.pins@.len() implies same_pin(
                #[trigger] x.pins@[j],
                y.pins@[j],
            ) by {}
        }
    }
}

pub open spec fn same_pad(a: Pad, b: Pad) -> bool {
    &&& a.number@ == b.number@
    &&& a.pad_type == b.pad_type
    &&& a.shape == b.shape
    &&& a.position == b.position
    &&& a.size == b.size
    &&& a.drill == b.drill
    &&& opt_text(a.net) == opt_text(b.net)
}

pub open spec fn same_footprint(a: PlacedComponent, b: PlacedComponent, e: Tree, policy: IdPolicy) -> bool {
    &&& same_id(a.id, b.id, given_uuid(e), policy)
    &&& a.reference@ == b.reference@
    &&& a.value@ == b.value@
    &&& a.footprint@ == b.footprint@
    &&& a.position == b.position
    &&& a.rotation == b.rotation
    &&& a.layer == b.layer
    &&& a.pads@.len() == b.pads@.len()
    &&& forall|j: int| 0 <= j < a.pads@.len() ==> same_pad(#[trigger] a.pads@[j], b.pads@[j])
}

pub open spec fn same_trace(a: Trace, b: Trace) -> bool {
    a.net@ == b.net@ && a.layer@ == b.layer@ && a.start == b.start && a.end == b.end && a.width
        == b.width
}

pub open spec fn same_via(a: Via, b: Via) -> bool {
    &&& a.net@ == b.net@
    &&& a.position == b.position
    &&& a.via_type == b.via_type
    &&& a.drill == b.drill
    &&& a.pad == b.pad
    &&& opt_text(a.start_layer) == opt_text(b.start_layer)
    &&& opt_text(a.end_layer) == opt_text(b.end_layer)
}

pub open spec fn same_zone(a: Zone, b: Zone) -> bool {
    &&& a.net@ == b.net@
    &&& a.layer@ == b.layer@
    &&& a.points@.len() == b.points@.len()
    &&& forall|j: int| 0 <= j < a.points@.len() ==> #[trigger] a.points@[j] == b.points@[j]
    &&& a.fill_type == b.fill_type
    &&& a.clearance == b.clearance
    &&& a.min_width == b.min_width
}

pub open spec fn layouts_agree(a: Layout, b: Layout, root: Tree, policy: IdPolicy) -> bool {
    let fps = find_all_spec(root, "footprint"@);
    &&& a.layers@.len() == b.layers@.len()
    &&& forall|i: int|
        0 <= i < a.layers@.len() ==> (#[trigger] a.layers@[i]).name@ == b.layers@[i].name@
            && a.layers@[i].layer_type == b.layers@[i].layer_type
    &&& a.components@.len() == b.components@.len()
    &&& forall|k: int|
        0 <= k < a.components@.len() ==> same_footprint(
            #[trigger] a.components@[k],
            b.components@[k],
            fps[k],
            policy,
        )
    &&& a.traces@.len() == b.traces@.len()
    &&& forall|k: int| 0 <= k < a.traces@.len() ==> same_trace(#[trigger] a.traces@[k], b.traces@[k])
    &&& a.vias@.len() == b.vias@.len()
    &&& forall|k: int| 0 <= k < a.vias@.len() ==> same_via(#[trigger] a.vias@[k], b.vias@[k])
    &&& a.zones@.len() == b.zones@.len()
    &&& forall|k: int| 0 <= k < a.zones@.len() ==> same_zone(#[trigger] a.zones@[k], b.zones@[k])
}

/// Importing one PCB text twice gives the same outcome, with layouts that
/// agree in every collection.
pub proof fn lemma_pcb_reimport(
    content: Seq<char>,
    policy: IdPolicy,
    a: Result<Layout, KicadError>,
    b: Result<Layout, KicadError>,
)
    requires
        pcb_import_ok(content, policy, a),
        pcb_import_ok(content, policy, b),
    ensures
        a is Ok <==> b is Ok,
        a is Ok ==> layouts_agree(a->Ok_0, b->Ok_0, parse_text(content)->Some_0, policy),
{
    if a is Ok {
        let (x, y) = (a->Ok_0, b->Ok_0);
        let fps = find_all_spec(parse_text(content)->Some_0, "footprint"@);
        assert forall|k: int| 0 <= k < x.components@.len() implies same_footprint(
            #[trigger] x.components@[k],
            y.components@[k],
            fps[k],
            policy,
        ) by {
            let (p, q) = (x.components@[k], y.components@[k]);
            assert forall|j: int| 0 <= j < p.pads@.len() implies same_pad(
                #[trigger] p.pads@[j],
                q.pads@[j],
            ) by {}
        }
        assert forall|k: int| 0 <= k < x.zones@.len() implies same_zone(
            #[trigger] x.zones@[k],
            y.zones@[k],
        ) by {
            let (p, q) = (x.zones@[k], y.zones@[k]);
            assert forall|j: int| 0 <= j < p.points@.len() implies #[trigger] p.points@[j]
                == q.points@[j] by {}
        }
    }
}

/// A document whose root is not tagged for the importer is refused whole.
pub proof fn lemma_wrong_root_fails(
    content: Seq<char>,
    policy: IdPolicy,
    s: Result<SchematicSheet, KicadError>,
    l: Result<Vec<Component>, KicadError>,
    p: Result<Layout, KicadError>,
)
    requires
        schematic_import_ok(content, policy, s),
        library_import_ok(content, policy, l),
        pcb_import_ok(content, policy, p),
    ensures
        (parse_text(content) matches Some(root) && tag_of(root) != Some("kicad_sch"@)) ==> s is Err,
        (parse_text(content) matches Some(root) && tag_of(root) != Some("kicad_symbol_lib"@)) ==> l is Err,
        (parse_text(content) matches Some(root) && tag_of(root) != Some("kicad_pcb"@)) ==> p is Err,
        parse_text(content) is None ==> s is Err && l is Err && p is Err,
{
}

/// A segment without both endpoints, or a via without a position, makes a
/// PCB import fail.
pub proof fn lemma_incomplete_element_fails(
    content: Seq<char>,
    policy: IdPolicy,
    p: Result<Layout, KicadError>,
    k: int,
)
    requires
        pcb_import_ok(content, policy, p),
        parse_text(content) is Some,
    ensures
        ({
            let root = parse_text(content)->Some_0;
            let segs = find_all_spec(root, "segment"@);
            let vias = find_all_spec(root, "via"@);
            &&& (0 <= k < segs.len() && !segment_complete(segs[k])) ==> p is Err
            &&& (0 <= k < vias.len() && !via_complete(vias[k])) ==> p is Err
        }),
{
}

/// Apart from those, no element stops an import: a parsed document with the
/// right root gives one output element for each of its elements, however
/// incomplete each one is.
pub proof fn lemma_best_effort(
    content: Seq<char>,
    policy: IdPolicy,
    s: Result<SchematicSheet, KicadError>,
    l: Result<Vec<Component>, KicadError>,
    p: Result<Layout, KicadError>,
)
    requires
        schematic_import_ok(content, policy, s),
        library_import_ok(content, policy, l),
        pcb_import_ok(content, policy, p),
        parse_text(content) is Some,
    ensures
        ({
            let root = parse_text(content)->Some_0;
            &&& tag_of(root) == Some("kicad_sch"@) ==> {
                let sheet = s->Ok_0;
                &&& s is Ok
                &&& sheet.symbols@.len() == find_all_spec(root, "symbol"@).len()
                &&& sheet.wires@.len() == find_all_spec(root, "wire"@).len()
                &&& sheet.labels@.len() == find_all_spec(root, "label"@).len() + find_all_spec(
                    root,
                    "global_label"@,
                ).len() + find_all_spec(root, "hierarchical_label"@).len()
                &&& sheet.junctions@.len() == find_all_spec(root, "junction"@).len()
                &&& sheet.no_connects@.len() == find_all_spec(root, "no_connect"@).len()
                &&& sheet.buses@.len() == find_all_spec(root, "bus"@).len()
            }
            &&& tag_of(root) == Some("kicad_symbol_lib"@) ==> l is Ok && l->Ok_0@.len()
                == find_all_spec(root, "symbol"@).len()
            &&& (tag_of(root) == Some("kicad_pcb"@) && board_complete(root)) ==> {
                let layout = p->Ok_0;
                &&& p is Ok
                &&& layout.components@.len() == find_all_spec(root, "footprint"@).len()
                &&& layout.traces@.len() == find_all_spec(root, "segment"@).len()
                &&& layout.vias@.len() == find_all_spec(root, "via"@).len()
                &&& layout.zones@.len() == find_all_spec(root, "zone"@).len()
            }
        }),
{
}

/// An element that gives its identifier in the hyphenated form keeps it,
/// whatever the fallback policy.
pub proof fn lemma_given_id_kept(id: u128, e: Tree, policy: IdPolicy, kind: u8, index: int, t: Seq<char>)
    requires
        id_rule(id, given_uuid(e), policy, kind, index),
        find_spec(e, "uuid"@) matches Some(u) && get_atom_spec(u, 1) == Some(t),
        is_hyphenated_uuid(t),
    ensures
        id == hex_value(uuid_digits(t)) as u128,
{
}

/// Every via of an imported layout is classified by its layer span: through
/// from front to back copper, blind for any other span of two or more layers
/// (never buried or micro), and through with no end layers for a shorter span.
pub proof fn lemma_via_classification(content: Seq<char>, policy: IdPolicy, p: Result<Layout, KicadError>, k: int)
    requires
        pcb_import_ok(content, policy, p),
        p is Ok,
        0 <= k < p->Ok_0.vias@.len(),
    ensures
        ({
            let v = p->Ok_0.vias@[k];
            let names = via_layer_names(find_all_spec(parse_text(content)->Some_0, "via"@)[k]);
            &&& v.via_type == ViaType::Through || v.via_type == ViaType::Blind
            &&& names.len() >= 2 ==> {
                &&& opt_text(v.start_layer) == Some(names[0])
                &&& opt_text(v.end_layer) == Some(names.last())
                &&& (v.via_type == ViaType::Through <==> (names[0] == "F.Cu"@ && names.last()
                    == "B.Cu"@))
            }
            &&& names.len() < 2 ==> v.via_type == ViaType::Through && v.start_layer is None
                && v.end_layer is None
        }),
{
}

/// An unknown pad token never fails an import: an unknown shape is
/// rectangular and an unknown class is surface-mount.
pub proof fn lemma_pad_tokens_total(content: Seq<char>, policy: IdPolicy, p: Result<Layout, KicadError>, k: int, j: int)
    requires
        pcb_import_ok(content, policy, p),
        p is Ok,
        0 <= k < p->Ok_0.components@.len(),
        0 <= j < p->Ok_0.components@[k].pads@.len(),
    ensures
        ({
            let e = find_all_spec(find_all_spec(parse_text(content)->Some_0, "footprint"@)[k], "pad"@)[j];
            let pad = p->Ok_0.components@[k].pads@[j];
            &&& !known_pad_shape(text_or(get_atom_spec(e, 3), "rect"@)) ==> pad.shape == PadShape::Rect
            &&& !known_pad_type(text_or(get_atom_spec(e, 2), "smd"@)) ==> pad.pad_type == PadType::Smd
        }),
{
}

/// An unknown pin token never fails an import nor drops the pin: the pin is
/// passive.
pub proof fn lemma_pin_tokens_total(content: Seq<char>, policy: IdPolicy, l: Result<Vec<Component>, KicadError>, k: int, j: int)
    requires
        library_import_ok(content, policy, l),
        l is Ok,
        0 <= k < l->Ok_0@.len(),
    ensures
        ({
            let sym = find_all_spec(parse_text(content)->Some_0, "symbol"@)[k];
            let pins = rec_find(sym, "pin"@);
            &&& l->Ok_0@[k].pins@.len() == pins.len()
            &&& (0 <= j < pins.len() && !known_pin_token(text_or(get_atom_spec(pins[j], 1), "passive"@)))
                ==> l->Ok_0@[k].pins@[j].pin_type == PinType::Passive
        }),
{
}

} // verus!
