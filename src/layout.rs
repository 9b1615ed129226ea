//! Board layouts, and their import from a PCB document.
use vstd::prelude::*;
use crate::decimal::Decimal;
use crate::geometry::{
    Point2D, origin, zero, num_or, text_or, xy_of, at_point, at_angle, child_atom, child_number,
    owned_or, number_or, xy_point, at_point_of, at_angle_of, child_atom_of, child_number_of,
};
use crate::ids::{ElementId, IdPolicy, id_rule, element_id, given_uuid, KIND_FOOTPRINT};
use crate::parser::{parse_text, parse_document};
use crate::schematic::prop_value_from;
use crate::sexpr::{
    SExpr, Tree, KicadError, find_all_spec, find_spec, get_atom_spec, items_of, atom_of, tag_of,
    lemma_items_view,
};
use crate::text::{text_eq, has_prefix};
use crate::units::LengthUnit;

verus! {

/// Shape of a board outline.
#[derive(Clone, Copy, Debug, PartialEq, Eq, Structural)]
pub enum OutlineType {
    Rectangle,
    Polygon,
    Circle,
}

/// A board outline.
#[derive(Debug)]
pub struct Outline {
    pub outline_type: OutlineType,
    pub points: Vec<Point2D>,
    pub width: Option<Decimal>,
    pub height: Option<Decimal>,
    pub unit: LengthUnit,
}

/// Class of a layer.
#[derive(Clone, Copy, Debug, PartialEq, Eq, Structural)]
pub enum LayerType {
    Copper,
    Dielectric,
    SolderMask,
    Silkscreen,
    Paste,
    Courtyard,
    Fabrication,
}

/// A layer of the stack.
#[derive(Debug)]
pub struct Layer {
    pub name: String,
    pub layer_type: LayerType,
    pub thickness: Option<Decimal>,
    pub material: Option<String>,
    pub visible: bool,
}

impl Layer {
    /// A visible layer with no thickness or material given.
    pub fn new(name: &str, layer_type: LayerType) -> (r: Layer)
        ensures
            layer_is(r, name@, layer_type),
    {
        Layer { name: name.to_owned(), layer_type, thickness: None, material: None, visible: true }
    }
}

pub open spec fn layer_is(l: Layer, name: Seq<char>, ty: LayerType) -> bool {
    &&& l.name@ == name
    &&& l.layer_type == ty
    &&& l.thickness is None
    &&& l.material is None
    &&& l.visible
}

/// Side of the board a footprint sits on.
#[derive(Clone, Copy, Debug, PartialEq, Eq, Structural)]
pub enum ComponentLayer {
    Top,
    Bottom,
}

/// Electrical class of a pad.
#[derive(Clone, Copy, Debug, PartialEq, Eq, Structural)]
pub enum PadType {
    ThruHole,
    Smd,
    Npth,
    Connect,
}

/// Shape of a pad.
#[derive(Clone, Copy, Debug, PartialEq, Eq, Structural)]
pub enum PadShape {
    Circle,
    Rect,
    Oval,
    RoundRect,
    Trapezoid,
    Custom,
}

/// A copper contact of a footprint.
#[derive(Debug)]
pub struct Pad {
    pub number: String,
    pub name: Option<String>,
    pub pad_type: PadType,
    pub shape: PadShape,
    pub position: Point2D,
    pub size: (Decimal, Decimal),
    pub drill: Decimal,
    pub net: Option<String>,
    pub layers: Vec<String>,
}

/// A footprint placed on the board.
#[derive(Debug)]
pub struct PlacedComponent {
    pub id: ElementId,
    pub reference: String,
    pub value: String,
    pub footprint: String,
    pub position: Point2D,
    pub rotation: Decimal,
    pub layer: ComponentLayer,
    pub pads: Vec<Pad>,
    pub locked: bool,
}

/// A copper trace segment.
#[derive(Debug)]
pub struct Trace {
    pub net: String,
    pub layer: String,
    pub start: Point2D,
    pub end: Point2D,
    pub width: Decimal,
    pub unit: LengthUnit,
}

/// Kind of via.
#[derive(Clone, Copy, Debug, PartialEq, Eq, Structural)]
pub enum ViaType {
    Through,
    Blind,
    Buried,
    Micro,
}

/// A plated hole between copper layers.
#[derive(Debug)]
pub struct Via {
    pub net: String,
    pub position: Point2D,
    pub via_type: ViaType,
    pub drill: Decimal,
    pub pad: Decimal,
    pub start_layer: Option<String>,
    pub end_layer: Option<String>,
    pub unit: LengthUnit,
}

/// Fill of a zone.
#[derive(Clone, Copy, Debug, PartialEq, Eq, Structural)]
pub enum ZoneFillType {
    Solid,
    Hatched,
    /// No fill: the outline only.
    Unfilled,
}

/// A copper zone.
#[derive(Debug)]
pub struct Zone {
    pub net: String,
    pub layer: String,
    pub points: Vec<Point2D>,
    pub fill_type: ZoneFillType,
    pub clearance: Option<Decimal>,
    pub min_width: Option<Decimal>,
    pub unit: LengthUnit,
}

/// A board layout.
#[derive(Debug)]
pub struct Layout {
    pub outline: Option<Outline>,
    pub layers: Vec<Layer>,
    pub components: Vec<PlacedComponent>,
    pub traces: Vec<Trace>,
    pub vias: Vec<Via>,
    pub zones: Vec<Zone>,
}

impl Default for Layout {
    /// An empty layout.
    fn default() -> (r: Layout)
        ensures
            r.outline is None,
            r.layers@.len() == 0,
            r.components@.len() == 0,
            r.traces@.len() == 0,
            r.vias@.len() == 0,
            r.zones@.len() == 0,
    {
        Layout::new()
    }
}

impl Layout {
    /// An empty layout.
    pub fn new() -> (r: Layout)
        ensures
            r.outline is None,
            r.layers@.len() == 0,
            r.components@.len() == 0,
            r.traces@.len() == 0,
            r.vias@.len() == 0,
            r.zones@.len() == 0,
    {
        Layout {
            outline: None,
            layers: Vec::new(),
            components: Vec::new(),
            traces: Vec::new(),
            vias: Vec::new(),
            zones: Vec::new(),
        }
    }
}

// ---- layers ----

/// The class that a layer token names.
pub open spec fn layer_class_of(t: Seq<char>) -> LayerType {
    if t == "signal"@ || t == "power"@ {
        LayerType::Copper
    } else {
        LayerType::Fabrication
    }
}

/// The layers that the entries `l[1..n]` of a layer block declare.
pub open spec fn declared_layers(l: Seq<Tree>, n: int) -> Seq<(Seq<char>, LayerType)>
    decreases n,
{
    if n <= 1 || n > l.len() {
        seq![]
    } else {
        let p = declared_layers(l, n - 1);
        let e = l[n - 1];
        if e is List && items_of(e).len() >= 3 {
            p.push(
                (
                    text_or(get_atom_spec(e, 1), "Unknown"@),
                    layer_class_of(text_or(get_atom_spec(e, 2), "signal"@)),
                ),
            )
        } else {
            p
        }
    }
}

pub open spec fn has_layer_named(ls: Seq<(Seq<char>, LayerType)>, name: Seq<char>) -> bool {
    exists|i: int| 0 <= i < ls.len() && (#[trigger] ls[i]).0 == name
}

pub open spec fn add_if_missing(ls: Seq<(Seq<char>, LayerType)>, name: Seq<char>, ty: LayerType) -> Seq<(Seq<char>, LayerType)> {
    if has_layer_named(ls, name) {
        ls
    } else {
        ls.push((name, ty))
    }
}

/// `ls` with the standard non-copper layers added where missing.
pub open spec fn with_standard_layers(ls: Seq<(Seq<char>, LayerType)>) -> Seq<(Seq<char>, LayerType)> {
    let a = add_if_missing(ls, "F.SilkS"@, LayerType::Silkscreen);
    let b = add_if_missing(a, "B.SilkS"@, LayerType::Silkscreen);
    let c = add_if_missing(b, "F.Mask"@, LayerType::SolderMask);
    let d = add_if_missing(c, "B.Mask"@, LayerType::SolderMask);
    add_if_missing(d, "Edge.Cuts"@, LayerType::Fabrication)
}

/// The layer stack of a board: its declared layers, or the two outer copper
/// layers when it declares none, with the standard layers added.
pub open spec fn board_layers(root: Tree) -> Seq<(Seq<char>, LayerType)> {
    match find_spec(root, "layers"@) {
        Some(b) => with_standard_layers(declared_layers(items_of(b), items_of(b).len() as int)),
        None => with_standard_layers(
            seq![("F.Cu"@, LayerType::Copper), ("B.Cu"@, LayerType::Copper)],
        ),
    }
}

pub open spec fn layers_are(ls: Seq<Layer>, want: Seq<(Seq<char>, LayerType)>) -> bool {
    &&& ls.len() == want.len()
    &&& forall|i: int| 0 <= i < ls.len() ==> layer_is(#[trigger] ls[i], want[i].0, want[i].1)
}

// ---- footprints and pads ----

pub open spec fn pad_type_of(t: Seq<char>) -> PadType {
    if t == "thru_hole"@ {
        PadType::ThruHole
    } else if t == "smd"@ {
        PadType::Smd
    } else if t == "np_thru_hole"@ {
        PadType::Npth
    } else if t == "connect"@ {
        PadType::Connect
    } else {
        PadType::Smd
    }
}

pub open spec fn pad_shape_of(t: Seq<char>) -> PadShape {
    if t == "circle"@ {
        PadShape::Circle
    } else if t == "rect"@ {
        PadShape::Rect
    } else if t == "oval"@ {
        PadShape::Oval
    } else if t == "roundrect"@ {
        PadShape::RoundRect
    } else if t == "trapezoid"@ {
        PadShape::Trapezoid
    } else if t == "custom"@ {
        PadShape::Custom
    } else {
        PadShape::Rect
    }
}

pub open spec fn known_pad_shape(t: Seq<char>) -> bool {
    t == "circle"@ || t == "rect"@ || t == "oval"@ || t == "roundrect"@ || t == "trapezoid"@ || t
        == "custom"@
}

pub open spec fn known_pad_type(t: Seq<char>) -> bool {
    t == "thru_hole"@ || t == "smd"@ || t == "np_thru_hole"@ || t == "connect"@
}

pub open spec fn opt_text(o: Option<String>) -> Option<Seq<char>> {
    match o {
        Some(s) => Some(s@),
        None => None,
    }
}

pub open spec fn pad_ok(p: Pad, e: Tree) -> bool {
    let one = Decimal { mantissa: 1, scale: 0 };
    &&& p.number@ == text_or(get_atom_spec(e, 1), "1"@)
    &&& p.name is None
    &&& p.pad_type == pad_type_of(text_or(get_atom_spec(e, 2), "smd"@))
    &&& p.shape == pad_shape_of(text_or(get_atom_spec(e, 3), "rect"@))
    &&& p.position == at_point(e)
    &&& p.size == (num_or(child_number(e, "size"@, 1), one), num_or(child_number(e, "size"@, 2), one))
    &&& p.drill == num_or(child_number(e, "drill"@, 1), zero())
    &&& opt_text(p.net) == child_atom(e, "net"@, 2)
    &&& p.layers@.len() == 0
}

/// Whether a layer name is on the back side.
pub open spec fn is_back(name: Seq<char>) -> bool {
    "B."@.len() <= name.len() && name.subrange(0, "B."@.len() as int) == "B."@
}

pub open spec fn footprint_ok(c: PlacedComponent, e: Tree, policy: IdPolicy, k: int) -> bool {
    let texts = find_all_spec(e, "fp_text"@);
    let pads = find_all_spec(e, "pad"@);
    let layer = text_or(child_atom(e, "layer"@, 1), "F.Cu"@);
    &&& id_rule(c.id.value, given_uuid(e), policy, KIND_FOOTPRINT, k)
    &&& c.footprint@ == text_or(get_atom_spec(e, 1), "Unknown"@)
    &&& c.reference@ == text_or(prop_value_from(texts, "reference"@, 0), "U?"@)
    &&& c.value@ == text_or(prop_value_from(texts, "value"@, 0), ""@)
    &&& c.position == at_point(e)
    &&& c.rotation == at_angle(e)
    &&& c.layer == (if is_back(layer) {
        ComponentLayer::Bottom
    } else {
        ComponentLayer::Top
    })
    &&& !c.locked
    &&& c.pads@.len() == pads.len()
    &&& forall|j: int| 0 <= j < pads.len() ==> pad_ok(#[trigger] c.pads@[j], pads[j])
}

// ---- traces, vias, zones ----

/// A segment has both endpoints.
pub open spec fn segment_complete(e: Tree) -> bool {
    find_spec(e, "start"@) is Some && find_spec(e, "end"@) is Some
}

pub open spec fn trace_ok(t: Trace, e: Tree) -> bool {
    &&& t.start == xy_of(find_spec(e, "start"@)->Some_0)
    &&& t.end == xy_of(find_spec(e, "end"@)->Some_0)
    &&& t.width == num_or(child_number(e, "width"@, 1), Decimal { mantissa: 25, scale: 2 })
    &&& t.layer@ == text_or(child_atom(e, "layer"@, 1), "F.Cu"@)
    &&& t.net@ == text_or(child_atom(e, "net"@, 1), ""@)
    &&& t.unit == LengthUnit::Mm
}

/// A via has a position.
pub open spec fn via_complete(e: Tree) -> bool {
    find_spec(e, "at"@) is Some
}

/// The tokens after the tag of `l[1..n]`.
pub open spec fn atoms_after_tag(l: Seq<Tree>, n: int) -> Seq<Seq<char>>
    decreases n,
{
    if n <= 1 || n > l.len() {
        seq![]
    } else {
        match atom_of(l[n - 1]) {
            Some(a) => atoms_after_tag(l, n - 1).push(a),
            None => atoms_after_tag(l, n - 1),
        }
    }
}

/// The layer names that a via's `(layers ...)` child lists.
pub open spec fn via_layer_names(e: Tree) -> Seq<Seq<char>> {
    match find_spec(e, "layers"@) {
        Some(b) => atoms_after_tag(items_of(b), items_of(b).len() as int),
        None => seq![],
    }
}

/// Class and end layers of a via with the layer span `names`: through when
/// the span runs exactly from front to back copper, blind for any other span
/// of two or more layers, through with no end layers for a shorter one.
pub open spec fn via_class(names: Seq<Seq<char>>) -> (ViaType, Option<Seq<char>>, Option<Seq<char>>) {
    if names.len() >= 2 {
        let first = names[0];
        let last = names.last();
        (
            if first == "F.Cu"@ && last == "B.Cu"@ {
                ViaType::Through
            } else {
                ViaType::Blind
            },
            Some(first),
            Some(last),
        )
    } else {
        (ViaType::Through, None, None)
    }
}

pub open spec fn via_ok(v: Via, e: Tree) -> bool {
    let c = via_class(via_layer_names(e));
    &&& v.position == xy_of(find_spec(e, "at"@)->Some_0)
    &&& v.pad == num_or(child_number(e, "size"@, 1), Decimal { mantissa: 6, scale: 1 })
    &&& v.drill == num_or(child_number(e, "drill"@, 1), Decimal { mantissa: 3, scale: 1 })
    &&& v.net@ == text_or(child_atom(e, "net"@, 1), ""@)
    &&& v.via_type == c.0
    &&& opt_text(v.start_layer) == c.1
    &&& opt_text(v.end_layer) == c.2
    &&& v.unit == LengthUnit::Mm
}

/// The `(xy ...)` points of the `(polygon (pts ...))` child of a zone.
pub open spec fn zone_points(e: Tree) -> Seq<Tree> {
    match find_spec(e, "polygon"@) {
        Some(p) => match find_spec(p, "pts"@) {
            Some(q) => find_all_spec(q, "xy"@),
            None => seq![],
        },
        None => seq![],
    }
}

pub open spec fn zone_fill_of(e: Tree) -> ZoneFillType {
    match find_spec(e, "fill"@) {
        Some(f) => if get_atom_spec(f, 1) == Some("yes"@) {
            ZoneFillType::Solid
        } else {
            ZoneFillType::Unfilled
        },
        None => ZoneFillType::Solid,
    }
}

pub open spec fn zone_ok(z: Zone, e: Tree) -> bool {
    let pts = zone_points(e);
    &&& z.net@ == text_or(child_atom(e, "net_name"@, 1), ""@)
    &&& z.layer@ == text_or(child_atom(e, "layer"@, 1), "F.Cu"@)
    &&& z.points@.len() == pts.len()
    &&& forall|j: int| 0 <= j < pts.len() ==> #[trigger] z.points@[j] == xy_of(pts[j])
    &&& z.fill_type == zone_fill_of(e)
    &&& z.clearance == child_number(e, "clearance"@, 1)
    &&& z.min_width == child_number(e, "min_thickness"@, 1)
    &&& z.unit == LengthUnit::Mm
}

/// Every segment has both endpoints and every via a position.
pub open spec fn board_complete(root: Tree) -> bool {
    &&& forall|k: int|
        0 <= k < find_all_spec(root, "segment"@).len() ==> segment_complete(
            #[trigger] find_all_spec(root, "segment"@)[k],
        )
    &&& forall|k: int|
        0 <= k < find_all_spec(root, "via"@).len() ==> via_complete(
            #[trigger] find_all_spec(root, "via"@)[k],
        )
}

pub open spec fn layout_ok(l: Layout, root: Tree, policy: IdPolicy) -> bool {
    let fps = find_all_spec(root, "footprint"@);
    let segs = find_all_spec(root, "segment"@);
    let vias = find_all_spec(root, "via"@);
    let zones = find_all_spec(root, "zone"@);
    &&& l.outline is None
    &&& layers_are(l.layers@, board_layers(root))
    &&& l.components@.len() == fps.len()
    &&& forall|k: int|
        0 <= k < fps.len() ==> footprint_ok(#[trigger] l.components@[k], fps[k], policy, k)
    &&& l.traces@.len() == segs.len()
    &&& forall|k: int| 0 <= k < segs.len() ==> trace_ok(#[trigger] l.traces@[k], segs[k])
    &&& l.vias@.len() == vias.len()
    &&& forall|k: int| 0 <= k < vias.len() ==> via_ok(#[trigger] l.vias@[k], vias[k])
    &&& l.zones@.len() == zones.len()
    &&& forall|k: int| 0 <= k < zones.len() ==> zone_ok(#[trigger] l.zones@[k], zones[k])
}

/// What importing a PCB text gives: the layout when the text parses to a
/// list tagged `kicad_pcb` whose segments all have both endpoints and whose
/// vias all have a position; an error otherwise.
pub open spec fn pcb_import_ok(content: Seq<char>, policy: IdPolicy, r: Result<Layout, KicadError>) -> bool {
    match parse_text(content) {
        Some(root) => if tag_of(root) == Some("kicad_pcb"@) && board_complete(root) {
            r is Ok && layout_ok(r->Ok_0, root, policy)
        } else {
            r is Err
        },
        None => r is Err,
    }
}

/// The pad class a token names; the mapping is total.
pub fn pad_type_from_token(t: &str) -> (r: PadType)
    ensures
        r == pad_type_of(t@),
        !known_pad_type(t@) ==> r == PadType::Smd,
{
    if text_eq(t, "thru_hole") {
        PadType::ThruHole
    } else if text_eq(t, "smd") {
        PadType::Smd
    } else if text_eq(t, "np_thru_hole") {
        PadType::Npth
    } else if text_eq(t, "connect") {
        PadType::Connect
    } else {
        PadType::Smd
    }
}

/// The pad shape a token names; the mapping is total.
pub fn pad_shape_from_token(t: &str) -> (r: PadShape)
    ensures
        r == pad_shape_of(t@),
        !known_pad_shape(t@) ==> r == PadShape::Rect,
{
    if text_eq(t, "circle") {
        PadShape::Circle
    } else if text_eq(t, "rect") {
        PadShape::Rect
    } else if text_eq(t, "oval") {
        PadShape::Oval
    } else if text_eq(t, "roundrect") {
        PadShape::RoundRect
    } else if text_eq(t, "trapezoid") {
        PadShape::Trapezoid
    } else if text_eq(t, "custom") {
        PadShape::Custom
    } else {
        PadShape::Rect
    }
}

/// The layer class a token names.
pub fn layer_class_from_token(t: &str) -> (r: LayerType)
    ensures
        r == layer_class_of(t@),
{
    if text_eq(t, "signal") || text_eq(t, "power") {
        LayerType::Copper
    } else {
        LayerType::Fabrication
    }
}

/// Class and end layers of a via whose layer span is `names`.
pub fn classify_via(names: &Vec<String>) -> (r: (ViaType, Option<String>, Option<String>))
    ensures
        ({
            let views = Seq::new(names@.len(), |i: int| names@[i]@);
            let c = via_class(views);
            &&& r.0 == c.0
            &&& opt_text(r.1) == c.1
            &&& opt_text(r.2) == c.2
        }),
{
    let ghost views = Seq::new(names@.len(), |i: int| names@[i]@);
    if names.len() >= 2 {
        let first = names[0].clone();
        let last = names[names.len() - 1].clone();
        assert(views.last() == last@);
        let through = text_eq(first.as_str(), "F.Cu") && text_eq(last.as_str(), "B.Cu");
        let vt = if through {
            ViaType::Through
        } else {
            ViaType::Blind
        };
        (vt, Some(first), Some(last))
    } else {
        (ViaType::Through, None, None)
    }
}

/// Reader of PCB documents.
#[derive(Debug)]
pub struct KicadPcbImporter;

impl KicadPcbImporter {
    /// Imports a PCB; footprint identifiers are random.
    pub fn import_from_string(content: &str) -> (r: Result<Layout, KicadError>)
        ensures
            pcb_import_ok(content@, IdPolicy::Random, r),
            r is Err ==> r->Err_0.line is None,
    {
        Self::import_with_policy(content, IdPolicy::Random)
    }

    /// Imports a PCB, with footprint identifiers from `policy`.
    pub fn import_with_policy(content: &str, policy: IdPolicy) -> (r: Result<Layout, KicadError>)
        ensures
            pcb_import_ok(content@, policy, r),
            r is Err ==> r->Err_0.line is None,
    {
        let expr = match parse_document(content) {
            Ok(e) => e,
            Err(err) => {
                return Err(err);
            },
        };
        let is_pcb = match expr.tag() {
            Some(t) => text_eq(t, "kicad_pcb"),
            None => false,
        };
        if !is_pcb {
            return Err(KicadError::new("Not a valid KiCAD PCB file"));
        }
        let root = &expr;
        let layers = Self::parse_layer_stack(root);
        let components = Self::parse_footprints(root, policy);
        let traces = match Self::parse_segments(root) {
            Ok(t) => t,
            Err(err) => {
                return Err(err);
            },
        };
        let vias = match Self::parse_vias(root) {
            Ok(v) => v,
            Err(err) => {
                return Err(err);
            },
        };
        let zones = Self::parse_zones(root);
        Ok(Layout { outline: None, layers, components, traces, vias, zones })
    }

    fn parse_layer_stack(root: &SExpr) -> (r: Vec<Layer>)
        ensures
            layers_are(r@, board_layers(root@)),
    {
        match root.find("layers") {
            Some(b) => Self::parse_layers(b),
            None => {
                let mut v: Vec<Layer> = Vec::new();
                v.push(Layer::new("F.Cu", LayerType::Copper));
                v.push(Layer::new("B.Cu", LayerType::Copper));
                let ghost base = seq![("F.Cu"@, LayerType::Copper), ("B.Cu"@, LayerType::Copper)];
                assert(layers_are(v@, base));
                Self::add_standard_layers(&mut v, Ghost(base));
                v
            },
        }
    }

    /// Adds each standard non-copper layer that is not there by name.
    fn add_standard_layers(layers: &mut Vec<Layer>, Ghost(base): Ghost<Seq<(Seq<char>, LayerType)>>)
        requires
            layers_are(old(layers)@, base),
        ensures
            layers_are(final(layers)@, with_standard_layers(base)),
    {
        let ghost a = add_if_missing(base, "F.SilkS"@, LayerType::Silkscreen);
        Self::add_standard_layer(layers, "F.SilkS", LayerType::Silkscreen, Ghost(base));
        let ghost b = add_if_missing(a, "B.SilkS"@, LayerType::Silkscreen);
        Self::add_standard_layer(layers, "B.SilkS", LayerType::Silkscreen, Ghost(a));
        let ghost c = add_if_missing(b, "F.Mask"@, LayerType::SolderMask);
        Self::add_standard_layer(layers, "F.Mask", LayerType::SolderMask, Ghost(b));
        let ghost d = add_if_missing(c, "B.Mask"@, LayerType::SolderMask);
        Self::add_standard_layer(layers, "B.Mask", LayerType::SolderMask, Ghost(c));
        Self::add_standard_layer(layers, "Edge.Cuts", LayerType::Fabrication, Ghost(d));
    }

    /// The layers that a layer block declares, with the standard non-copper
    /// layers added where missing.
    fn parse_layers(expr: &SExpr) -> (r: Vec<Layer>)
        ensures
            layers_are(
                r@,
                with_standard_layers(declared_layers(items_of(expr@), items_of(expr@).len() as int)),
            ),
    {
        let mut layers = Self::declared_layer_list(expr);
        Self::add_standard_layers(
            &mut layers,
            Ghost(declared_layers(items_of(expr@), items_of(expr@).len() as int)),
        );
        layers
    }

    /// The layers that a layer block declares.
    fn declared_layer_list(expr: &SExpr) -> (r: Vec<Layer>)
        ensures
            layers_are(r@, declared_layers(items_of(expr@), items_of(expr@).len() as int)),
    {
        let mut layers: Vec<Layer> = Vec::new();
        match expr {
            SExpr::List(list) => {
                proof {
                    lemma_items_view(list);
                }
                let ghost items = items_of(expr@);
                let mut i: usize = 1;
                while i < list.len()
                    invariant
                        items == items_of(expr@),
                        items.len() == list@.len(),
                        forall|k: int| 0 <= k < list@.len() ==> #[trigger] items[k] == list@[k]@,
                        1 <= i,
                        i <= list@.len() || i == 1,
                        layers_are(layers@, declared_layers(items, i as int)),
                    decreases list.len() - i,
                {
                    let item = &list[i];
                    match item {
                        SExpr::List(entry) => {
                            if entry.len() >= 3 {
                                proof {
                                    lemma_items_view(entry);
                                }
                                let name = match entry[1].as_atom() {
                                    Some(n) => n,
                                    None => "Unknown",
                                };
                                let token = match entry[2].as_atom() {
                                    Some(t) => t,
                                    None => "signal",
                                };
                                layers.push(Layer::new(name, layer_class_from_token(token)));
                            }
                        },
                        SExpr::Atom(_) => {},
                    }
                    i = i + 1;
                }
                layers
            },
            SExpr::Atom(_) => layers,
        }
    }

    /// Adds a standard layer unless one of that name is there.
    fn add_standard_layer(layers: &mut Vec<Layer>, name: &str, layer_type: LayerType, Ghost(want): Ghost<Seq<(Seq<char>, LayerType)>>)
        requires
            layers_are(old(layers)@, want),
        ensures
            layers_are(final(layers)@, add_if_missing(want, name@, layer_type)),
    {
        let mut i: usize = 0;
        while i < layers.len()
            invariant
                layers_are(layers@, want),
                i <= layers@.len(),
                forall|j: int| 0 <= j < i ==> (#[trigger] want[j]).0 != name@,
            decreases layers.len() - i,
        {
            if text_eq(layers[i].name.as_str(), name) {
                assert(want[i as int].0 == name@);
                return;
            }
            i = i + 1;
        }
        layers.push(Layer::new(name, layer_type));
    }

    fn parse_footprints(root: &SExpr, policy: IdPolicy) -> (r: Vec<PlacedComponent>)
        ensures
            r@.len() == find_all_spec(root@, "footprint"@).len(),
            forall|k: int|
                0 <= k < r@.len() ==> footprint_ok(
                    #[trigger] r@[k],
                    find_all_spec(root@, "footprint"@)[k],
                    policy,
                    k,
                ),
    {
        let all = root.find_all("footprint");
        let ghost fps = find_all_spec(root@, "footprint"@);
        let mut out: Vec<PlacedComponent> = Vec::new();
        let mut i: usize = 0;
        while i < all.len()
            invariant
                fps == find_all_spec(root@, "footprint"@),
                all@.len() == fps.len(),
                forall|k: int| 0 <= k < all@.len() ==> all@[k]@ == fps[k],
                i <= all@.len(),
                out@.len() == i,
                forall|k: int| 0 <= k < i ==> footprint_ok(#[trigger] out@[k], fps[k], policy, k),
            decreases all.len() - i,
        {
            out.push(Self::parse_footprint(all[i], policy, i));
            i = i + 1;
        }
        out
    }

    /// The text of the first `fp_text` child with the role `role`.
    fn footprint_text<'a>(expr: &'a SExpr, role: &str) -> (r: Option<&'a str>)
        ensures
            match r {
                Some(t) => prop_value_from(find_all_spec(expr@, "fp_text"@), role@, 0) == Some(t@),
                None => prop_value_from(find_all_spec(expr@, "fp_text"@), role@, 0) is None,
            },
    {
        let texts = expr.find_all("fp_text");
        let ghost ts = find_all_spec(expr@, "fp_text"@);
        let mut i: usize = 0;
        while i < texts.len()
            invariant
                ts == find_all_spec(expr@, "fp_text"@),
                texts@.len() == ts.len(),
                forall|k: int| 0 <= k < texts@.len() ==> texts@[k]@ == ts[k],
                i <= texts@.len(),
                prop_value_from(ts, role@, 0) == prop_value_from(ts, role@, i as int),
            decreases texts.len() - i,
        {
            let matched = match texts[i].get_atom(1) {
                Some(a) => text_eq(a, role),
                None => false,
            };
            if matched {
                return texts[i].get_atom(2);
            }
            i = i + 1;
        }
        None
    }

    fn parse_footprint(expr: &SExpr, policy: IdPolicy, index: usize) -> (r: PlacedComponent)
        ensures
            footprint_ok(r, expr@, policy, index as int),
    {
        let footprint = owned_or(expr.get_atom(1), "Unknown");
        let layer = owned_or(child_atom_of(expr, "layer", 1), "F.Cu");
        let side = if has_prefix(layer.as_str(), "B.") {
            ComponentLayer::Bottom
        } else {
            ComponentLayer::Top
        };
        let reference = owned_or(Self::footprint_text(expr, "reference"), "U?");
        let value = owned_or(Self::footprint_text(expr, "value"), "");
        let all = expr.find_all("pad");
        let ghost ps = find_all_spec(expr@, "pad"@);
        let mut pads: Vec<Pad> = Vec::new();
        let mut i: usize = 0;
        while i < all.len()
            invariant
                ps == find_all_spec(expr@, "pad"@),
                all@.len() == ps.len(),
                forall|k: int| 0 <= k < all@.len() ==> all@[k]@ == ps[k],
                i <= all@.len(),
                pads@.len() == i,
                forall|k: int| 0 <= k < i ==> pad_ok(#[trigger] pads@[k], ps[k]),
            decreases all.len() - i,
        {
            pads.push(Self::parse_pad(all[i]));
            i = i + 1;
        }
        PlacedComponent {
            id: element_id(expr, policy, KIND_FOOTPRINT, index),
            reference,
            value,
            footprint,
            position: at_point_of(expr),
            rotation: at_angle_of(expr),
            layer: side,
            pads,
            locked: false,
        }
    }

    fn parse_pad(expr: &SExpr) -> (r: Pad)
        ensures
            pad_ok(r, expr@),
    {
        let number = owned_or(expr.get_atom(1), "1");
        let type_token = match expr.get_atom(2) {
            Some(t) => t,
            None => "smd",
        };
        let shape_token = match expr.get_atom(3) {
            Some(t) => t,
            None => "rect",
        };
        let one = Decimal::new(1, 0);
        let width = number_or(child_number_of(expr, "size", 1), one);
        let height = number_or(child_number_of(expr, "size", 2), one);
        let net = match child_atom_of(expr, "net", 2) {
            Some(n) => Some(n.to_owned()),
            None => None,
        };
        Pad {
            number,
            name: None,
            pad_type: pad_type_from_token(type_token),
            shape: pad_shape_from_token(shape_token),
            position: at_point_of(expr),
            size: (width, height),
            drill: number_or(child_number_of(expr, "drill", 1), Decimal::zero()),
            net,
            layers: Vec::new(),
        }
    }

    fn parse_segments(root: &SExpr) -> (r: Result<Vec<Trace>, KicadError>)
        ensures
            r is Err ==> r->Err_0.line is None,
            ({
                let segs = find_all_spec(root@, "segment"@);
                &&& r is Ok <==> forall|k: int|
                    0 <= k < segs.len() ==> segment_complete(#[trigger] segs[k])
                &&& r is Ok ==> r->Ok_0@.len() == segs.len() && forall|k: int|
                    0 <= k < segs.len() ==> trace_ok(#[trigger] r->Ok_0@[k], segs[k])
            }),
    {
        let all = root.find_all("segment");
        let ghost segs = find_all_spec(root@, "segment"@);
        let mut out: Vec<Trace> = Vec::new();
        let mut i: usize = 0;
        while i < all.len()
            invariant
                segs == find_all_spec(root@, "segment"@),
                all@.len() == segs.len(),
                forall|k: int| 0 <= k < all@.len() ==> all@[k]@ == segs[k],
                i <= all@.len(),
                out@.len() == i,
                forall|k: int| 0 <= k < i ==> segment_complete(#[trigger] segs[k]),
                forall|k: int| 0 <= k < i ==> trace_ok(#[trigger] out@[k], segs[k]),
            decreases all.len() - i,
        {
            match Self::parse_segment(all[i]) {
                Ok(t) => out.push(t),
                Err(err) => {
                    assert(!segment_complete(segs[i as int]));
                    return Err(err);
                },
            }
            i = i + 1;
        }
        Ok(out)
    }

    fn parse_segment(expr: &SExpr) -> (r: Result<Trace, KicadError>)
        ensures
            r is Err ==> r->Err_0.line is None,
            r is Ok <==> segment_complete(expr@),
            r is Ok ==> trace_ok(r->Ok_0, expr@),
    {
        let start = match expr.find("start") {
            Some(s) => xy_point(s),
            None => {
                return Err(KicadError::new("Segment missing start point"));
            },
        };
        let end = match expr.find("end") {
            Some(e) => xy_point(e),
            None => {
                return Err(KicadError::new("Segment missing end point"));
            },
        };
        Ok(
            Trace {
                net: owned_or(child_atom_of(expr, "net", 1), ""),
                layer: owned_or(child_atom_of(expr, "layer", 1), "F.Cu"),
                start,
                end,
                width: number_or(child_number_of(expr, "width", 1), Decimal::new(25, 2)),
                unit: LengthUnit::Mm,
            },
        )
    }

    fn parse_vias(root: &SExpr) -> (r: Result<Vec<Via>, KicadError>)
        ensures
            r is Err ==> r->Err_0.line is None,
            ({
                let vias = find_all_spec(root@, "via"@);
                &&& r is Ok <==> forall|k: int|
                    0 <= k < vias.len() ==> via_complete(#[trigger] vias[k])
                &&& r is Ok ==> r->Ok_0@.len() == vias.len() && forall|k: int|
                    0 <= k < vias.len() ==> via_ok(#[trigger] r->Ok_0@[k], vias[k])
            }),
    {
        let all = root.find_all("via");
        let ghost vias = find_all_spec(root@, "via"@);
        let mut out: Vec<Via> = Vec::new();
        let mut i: usize = 0;
        while i < all.len()
            invariant
                vias == find_all_spec(root@, "via"@),
                all@.len() == vias.len(),
                forall|k: int| 0 <= k < all@.len() ==> all@[k]@ == vias[k],
                i <= all@.len(),
                out@.len() == i,
                forall|k: int| 0 <= k < i ==> via_complete(#[trigger] vias[k]),
                forall|k: int| 0 <= k < i ==> via_ok(#[trigger] out@[k], vias[k]),
            decreases all.len() - i,
        {
            match Self::parse_via(all[i]) {
                Ok(v) => out.push(v),
                Err(err) => {
                    assert(!via_complete(vias[i as int]));
                    return Err(err);
                },
            }
            i = i + 1;
        }
        Ok(out)
    }

    /// The tokens of the `(layers ...)` child after its tag.
    fn via_layers(expr: &SExpr) -> (r: Vec<String>)
        ensures
            Seq::new(r@.len(), |i: int| r@[i]@) == via_layer_names(expr@),
    {
        let mut names: Vec<String> = Vec::new();
        match expr.find("layers") {
            Some(b) => match b {
                SExpr::List(list) => {
                    proof {
                        lemma_items_view(list);
                    }
                    let ghost items = items_of(b@);
                    let mut i: usize = 1;
                    while i < list.len()
                        invariant
                            items == items_of(b@),
                            items.len() == list@.len(),
                            forall|k: int| 0 <= k < list@.len() ==> #[trigger] items[k] == list@[k]@,
                            1 <= i,
                            i <= list@.len() || i == 1,
                            Seq::new(names@.len(), |j: int| names@[j]@) == atoms_after_tag(items, i as int),
                        decreases list.len() - i,
                    {
                        let ghost before = names@;
                        match list[i].as_atom() {
                            Some(a) => {
                                names.push(a.to_owned());
                                assert(Seq::new(names@.len(), |j: int| names@[j]@) =~= Seq::new(
                                    before.len(),
                                    |j: int| before[j]@,
                                ).push(a@));
                            },
                            None => {},
                        }
                        i = i + 1;
                    }
                    names
                },
                SExpr::Atom(_) => {
                    assert(Seq::new(names@.len(), |i: int| names@[i]@) =~= Seq::<Seq<char>>::empty());
                    names
                },
            },
            None => {
                assert(Seq::new(names@.len(), |i: int| names@[i]@) =~= Seq::<Seq<char>>::empty());
                names
            },
        }
    }

    fn parse_via(expr: &SExpr) -> (r: Result<Via, KicadError>)
        ensures
            r is Err ==> r->Err_0.line is None,
            r is Ok <==> via_complete(expr@),
            r is Ok ==> via_ok(r->Ok_0, expr@),
    {
        let position = match expr.find("at") {
            Some(a) => xy_point(a),
            None => {
                return Err(KicadError::new("Via missing position"));
            },
        };
        let names = Self::via_layers(expr);
        let (via_type, start_layer, end_layer) = classify_via(&names);
        Ok(
            Via {
                net: owned_or(child_atom_of(expr, "net", 1), ""),
                position,
                via_type,
                drill: number_or(child_number_of(expr, "drill", 1), Decimal::new(3, 1)),
                pad: number_or(child_number_of(expr, "size", 1), Decimal::new(6, 1)),
                start_layer,
                end_layer,
                unit: LengthUnit::Mm,
            },
        )
    }

    fn parse_zones(root: &SExpr) -> (r: Vec<Zone>)
        ensures
            r@.len() == find_all_spec(root@, "zone"@).len(),
            forall|k: int|
                0 <= k < r@.len() ==> zone_ok(#[trigger] r@[k], find_all_spec(root@, "zone"@)[k]),
    {
        let all = root.find_all("zone");
        let ghost zs = find_all_spec(root@, "zone"@);
        let mut out: Vec<Zone> = Vec::new();
        let mut i: usize = 0;
        while i < all.len()
            invariant
                zs == find_all_spec(root@, "zone"@),
                all@.len() == zs.len(),
                forall|k: int| 0 <= k < all@.len() ==> all@[k]@ == zs[k],
                i <= all@.len(),
                out@.len() == i,
                forall|k: int| 0 <= k < i ==> zone_ok(#[trigger] out@[k], zs[k]),
            decreases all.len() - i,
        {
            out.push(Self::parse_zone(all[i]));
            i = i + 1;
        }
        out
    }

    fn parse_zone(expr: &SExpr) -> (r: Zone)
        ensures
            zone_ok(r, expr@),
    {
        let xys: Vec<&SExpr> = match expr.find("polygon") {
            Some(p) => match p.find("pts") {
                Some(q) => q.find_all("xy"),
                None => Vec::new(),
            },
            None => Vec::new(),
        };
        let ghost pts = zone_points(expr@);
        let mut points: Vec<Point2D> = Vec::new();
        let mut i: usize = 0;
        while i < xys.len()
            invariant
                pts == zone_points(expr@),
                xys@.len() == pts.len(),
                forall|k: int| 0 <= k < xys@.len() ==> xys@[k]@ == pts[k],
                i <= xys@.len(),
                points@.len() == i,
                forall|k: int| 0 <= k < i ==> #[trigger] points@[k] == xy_of(pts[k]),
            decreases xys.len() - i,
        {
            points.push(xy_point(xys[i]));
            i = i + 1;
        }
        let fill_type = match expr.find("fill") {
            Some(f) => {
                let yes = match f.get_atom(1) {
                    Some(a) => text_eq(a, "yes"),
                    None => false,
                };
                if yes {
                    ZoneFillType::Solid
                } else {
                    ZoneFillType::Unfilled
                }
            },
            None => ZoneFillType::Solid,
        };
        Zone {
            net: owned_or(child_atom_of(expr, "net_name", 1), ""),
            layer: owned_or(child_atom_of(expr, "layer", 1), "F.Cu"),
            points,
            fill_type,
            clearance: child_number_of(expr, "clearance", 1),
            min_width: child_number_of(expr, "min_thickness", 1),
            unit: LengthUnit::Mm,
        }
    }
}

} // verus!
