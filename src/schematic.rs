//! Schematic sheets, and their import from a schematic document.
use vstd::prelude::*;
use crate::decimal::{Decimal, u32_of, parse_u32};
use crate::geometry::{
    Point2D, origin, text_or, xy_of, at_point, at_angle, child_atom, owned_or, xy_point,
    at_point_of, at_angle_of, child_atom_of,
};
use crate::ids::{
    ElementId, IdPolicy, given_uuid, id_rule, element_id, KIND_SHEET, KIND_SYMBOL, KIND_WIRE,
    KIND_LABEL, KIND_JUNCTION, KIND_NO_CONNECT, KIND_POWER, KIND_BUS,
};
use crate::parser::{parse_text, parse_document};
use crate::sexpr::{SExpr, Tree, KicadError, find_all_spec, find_spec, get_atom_spec, tag_of};
use crate::text::{
    index_of_from, contains_seq, lower_of, upper_of, chars_of, first_index_of, string_from_chars,
    text_eq, contains_text, to_lower, to_upper,
};

verus! {

/// Kind of net label.
#[derive(Clone, Copy, Debug, PartialEq, Eq, Structural)]
pub enum LabelType {
    Local,
    Global,
    Hierarchical,
}

/// Glyph of a power symbol.
#[derive(Clone, Copy, Debug, PartialEq, Eq, Structural)]
pub enum PowerSymbolStyle {
    Ground,
    Earth,
    Bar,
}

/// A library symbol placed on a sheet.
#[derive(Debug)]
pub struct PlacedSymbol {
    pub id: ElementId,
    pub reference: String,
    pub value: String,
    pub library: String,
    pub symbol_name: String,
    pub position: Point2D,
    pub rotation: Decimal,
    pub mirror_x: bool,
    pub mirror_y: bool,
    pub unit: u32,
}

/// A wire between two points; its net is resolved elsewhere.
#[derive(Debug)]
pub struct Wire {
    pub id: ElementId,
    pub start: Point2D,
    pub end: Point2D,
    pub net_name: Option<String>,
}

#[derive(Debug)]
pub struct NetLabel {
    pub id: ElementId,
    pub name: String,
    pub position: Point2D,
    pub label_type: LabelType,
    pub rotation: Decimal,
}

#[derive(Debug)]
pub struct Junction {
    pub id: ElementId,
    pub position: Point2D,
}

#[derive(Debug)]
pub struct NoConnect {
    pub id: ElementId,
    pub position: Point2D,
}

#[derive(Debug)]
pub struct PowerSymbol {
    pub id: ElementId,
    pub net_name: String,
    pub position: Point2D,
    pub rotation: Decimal,
    pub style: PowerSymbolStyle,
}

#[derive(Clone, Copy, Debug, PartialEq, Eq, Structural)]
pub struct BusSegment {
    pub start: Point2D,
    pub end: Point2D,
}

#[derive(Debug)]
pub struct Bus {
    pub id: ElementId,
    pub name: String,
    pub segments: Vec<BusSegment>,
}

/// One schematic sheet.
#[derive(Debug)]
pub struct SchematicSheet {
    pub id: ElementId,
    pub name: String,
    pub symbols: Vec<PlacedSymbol>,
    pub wires: Vec<Wire>,
    pub labels: Vec<NetLabel>,
    pub junctions: Vec<Junction>,
    pub no_connects: Vec<NoConnect>,
    pub power_symbols: Vec<PowerSymbol>,
    pub buses: Vec<Bus>,
}

// ---- what each element of a schematic document becomes ----

/// The value of the first `(property name value)` of `props[i..]` named `name`.
pub open spec fn prop_value_from(props: Seq<Tree>, name: Seq<char>, i: int) -> Option<Seq<char>>
    decreases props.len() - i,
{
    if 0 <= i < props.len() {
        if get_atom_spec(props[i], 1) == Some(name) {
            get_atom_spec(props[i], 2)
        } else {
            prop_value_from(props, name, i + 1)
        }
    } else {
        None
    }
}

/// The value of the first `property` child of `e` named `name`.
pub open spec fn symbol_property(e: Tree, name: Seq<char>) -> Option<Seq<char>> {
    prop_value_from(find_all_spec(e, "property"@), name, 0)
}

/// The library id of a placed symbol.
pub open spec fn lib_id_of(e: Tree) -> Seq<char> {
    text_or(child_atom(e, "lib_id"@, 1), "unknown:unknown"@)
}

/// A library id split at its first colon into library and symbol name.
pub open spec fn split_lib_id(id: Seq<char>) -> (Seq<char>, Seq<char>) {
    let k = index_of_from(id, ':', 0);
    if k < id.len() {
        (id.subrange(0, k), id.subrange(k + 1, id.len() as int))
    } else {
        ("unknown"@, id)
    }
}

/// The unit number; 1 when absent or no number.
pub open spec fn unit_of(e: Tree) -> u32 {
    match child_atom(e, "unit"@, 1) {
        Some(t) => match u32_of(t) {
            Some(u) => u,
            None => 1,
        },
        None => 1,
    }
}

pub open spec fn mirror_is(e: Tree, axis: Seq<char>) -> bool {
    child_atom(e, "mirror"@, 1) == Some(axis)
}

pub open spec fn symbol_ok(s: PlacedSymbol, e: Tree, policy: IdPolicy, k: int) -> bool {
    &&& id_rule(s.id.value, given_uuid(e), policy, KIND_SYMBOL, k)
    &&& s.reference@ == text_or(symbol_property(e, "Reference"@), "U?"@)
    &&& s.value@ == text_or(symbol_property(e, "Value"@), ""@)
    &&& s.library@ == split_lib_id(lib_id_of(e)).0
    &&& s.symbol_name@ == split_lib_id(lib_id_of(e)).1
    &&& s.position == at_point(e)
    &&& s.rotation == at_angle(e)
    &&& s.mirror_x == mirror_is(e, "x"@)
    &&& s.mirror_y == mirror_is(e, "y"@)
    &&& s.unit == unit_of(e)
}

/// The `(xy ...)` points of the `(pts ...)` child of `e`.
pub open spec fn pts_of(e: Tree) -> Seq<Tree> {
    match find_spec(e, "pts"@) {
        Some(p) => find_all_spec(p, "xy"@),
        None => seq![],
    }
}

pub open spec fn wire_ok(w: Wire, e: Tree, policy: IdPolicy, k: int) -> bool {
    &&& id_rule(w.id.value, given_uuid(e), policy, KIND_WIRE, k)
    &&& w.net_name is None
    &&& if pts_of(e).len() >= 2 {
        w.start == xy_of(pts_of(e)[0]) && w.end == xy_of(pts_of(e)[1])
    } else {
        w.start == origin() && w.end == origin()
    }
}

pub open spec fn label_ok(l: NetLabel, e: Tree, ty: LabelType, policy: IdPolicy, k: int) -> bool {
    &&& id_rule(l.id.value, given_uuid(e), policy, KIND_LABEL, k)
    &&& l.name@ == text_or(get_atom_spec(e, 1), ""@)
    &&& l.position == at_point(e)
    &&& l.rotation == at_angle(e)
    &&& l.label_type == ty
}

pub open spec fn junction_ok(j: Junction, e: Tree, policy: IdPolicy, k: int) -> bool {
    &&& id_rule(j.id.value, given_uuid(e), policy, KIND_JUNCTION, k)
    &&& j.position == at_point(e)
}

pub open spec fn no_connect_ok(n: NoConnect, e: Tree, policy: IdPolicy, k: int) -> bool {
    &&& id_rule(n.id.value, given_uuid(e), policy, KIND_NO_CONNECT, k)
    &&& n.position == at_point(e)
}

/// Some `property` child of `e` is named `power`.
pub open spec fn has_power_property(e: Tree) -> bool {
    exists|j: int|
        0 <= j < find_all_spec(e, "property"@).len() && get_atom_spec(
            #[trigger] find_all_spec(e, "property"@)[j],
            1,
        ) == Some("power"@)
}

/// A placed symbol stands for a power net when its library id names power in
/// any case, or when it has a property named `power`.
pub open spec fn is_power_spec(e: Tree) -> bool {
    (match child_atom(e, "lib_id"@, 1) {
        Some(t) => contains_seq(lower_of(t), "power"@),
        None => false,
    }) || has_power_property(e)
}

/// The glyph for a net whose uppercase name is `upper`.
pub open spec fn style_spec(upper: Seq<char>) -> PowerSymbolStyle {
    if contains_seq(upper, "GND"@) {
        PowerSymbolStyle::Ground
    } else if contains_seq(upper, "EARTH"@) {
        PowerSymbolStyle::Earth
    } else {
        PowerSymbolStyle::Bar
    }
}

pub open spec fn power_ok(p: PowerSymbol, e: Tree, policy: IdPolicy, k: int) -> bool {
    &&& id_rule(p.id.value, given_uuid(e), policy, KIND_POWER, k)
    &&& p.net_name@ == text_or(symbol_property(e, "Value"@), "VCC"@)
    &&& p.position == at_point(e)
    &&& p.rotation == at_angle(e)
    &&& p.style == style_spec(upper_of(p.net_name@))
}

pub open spec fn bus_ok(b: Bus, e: Tree, policy: IdPolicy, k: int) -> bool {
    &&& id_rule(b.id.value, given_uuid(e), policy, KIND_BUS, k)
    &&& b.name@ == ""@
    &&& b.segments@.len() == (if pts_of(e).len() >= 1 {
        pts_of(e).len() - 1
    } else {
        0
    })
    &&& forall|j: int|
        0 <= j < b.segments@.len() ==> #[trigger] b.segments@[j] == (BusSegment {
            start: xy_of(pts_of(e)[j]),
            end: xy_of(pts_of(e)[j + 1]),
        })
}

/// Indices, among `syms[0..n]`, of the power symbols.
pub open spec fn power_indices(syms: Seq<Tree>, n: int) -> Seq<int>
    decreases n,
{
    if n <= 0 {
        seq![]
    } else if is_power_spec(syms[n - 1]) {
        power_indices(syms, n - 1).push(n - 1)
    } else {
        power_indices(syms, n - 1)
    }
}

/// The labels of the three kinds, in this order.
pub open spec fn labels_ok(ls: Seq<NetLabel>, root: Tree, policy: IdPolicy) -> bool {
    let a = find_all_spec(root, "label"@);
    let b = find_all_spec(root, "global_label"@);
    let c = find_all_spec(root, "hierarchical_label"@);
    &&& ls.len() == a.len() + b.len() + c.len()
    &&& forall|k: int|
        0 <= k < a.len() ==> label_ok(#[trigger] ls[k], a[k], LabelType::Local, policy, k)
    &&& forall|k: int|
        a.len() <= k < a.len() + b.len() ==> label_ok(
            #[trigger] ls[k],
            b[k - a.len()],
            LabelType::Global,
            policy,
            k,
        )
    &&& forall|k: int|
        a.len() + b.len() <= k < ls.len() ==> label_ok(
            #[trigger] ls[k],
            c[k - a.len() - b.len()],
            LabelType::Hierarchical,
            policy,
            k,
        )
}

/// A sheet holds, kind by kind and in document order, one element for each
/// direct child of the document of that kind.
pub open spec fn sheet_ok(sheet: SchematicSheet, root: Tree, policy: IdPolicy) -> bool {
    let syms = find_all_spec(root, "symbol"@);
    let wires = find_all_spec(root, "wire"@);
    let juncs = find_all_spec(root, "junction"@);
    let ncs = find_all_spec(root, "no_connect"@);
    let buses = find_all_spec(root, "bus"@);
    let pw = power_indices(syms, syms.len() as int);
    &&& id_rule(sheet.id.value, given_uuid(root), policy, KIND_SHEET, 0)
    &&& sheet.name@ == "Imported"@
    &&& sheet.symbols@.len() == syms.len()
    &&& forall|k: int|
        0 <= k < syms.len() ==> symbol_ok(#[trigger] sheet.symbols@[k], syms[k], policy, k)
    &&& sheet.wires@.len() == wires.len()
    &&& forall|k: int|
        0 <= k < wires.len() ==> wire_ok(#[trigger] sheet.wires@[k], wires[k], policy, k)
    &&& labels_ok(sheet.labels@, root, policy)
    &&& sheet.junctions@.len() == juncs.len()
    &&& forall|k: int|
        0 <= k < juncs.len() ==> junction_ok(#[trigger] sheet.junctions@[k], juncs[k], policy, k)
    &&& sheet.no_connects@.len() == ncs.len()
    &&& forall|k: int|
        0 <= k < ncs.len() ==> no_connect_ok(#[trigger] sheet.no_connects@[k], ncs[k], policy, k)
    &&& sheet.power_symbols@.len() == pw.len()
    &&& forall|k: int|
        0 <= k < pw.len() ==> power_ok(#[trigger] sheet.power_symbols@[k], syms[pw[k]], policy, pw[k])
    &&& sheet.buses@.len() == buses.len()
    &&& forall|k: int|
        0 <= k < buses.len() ==> bus_ok(#[trigger] sheet.buses@[k], buses[k], policy, k)
}

/// What importing a schematic text gives: the sheet when the text parses to a
/// list tagged `kicad_sch`, an error otherwise.
pub open spec fn schematic_import_ok(content: Seq<char>, policy: IdPolicy, r: Result<SchematicSheet, KicadError>) -> bool {
    match parse_text(content) {
        Some(root) => if tag_of(root) == Some("kicad_sch"@) {
            r is Ok && sheet_ok(r->Ok_0, root, policy)
        } else {
            r is Err
        },
        None => r is Err,
    }
}

/// Whether a lowercased library id names a power symbol.
pub fn names_power(lowered: &str) -> (r: bool)
    ensures
        r == contains_seq(lowered@, "power"@),
{
    contains_text(lowered, "power")
}

/// The glyph for a net whose uppercase name is `upper`.
pub fn power_style_for(upper: &str) -> (r: PowerSymbolStyle)
    ensures
        r == style_spec(upper@),
{
    if contains_text(upper, "GND") {
        PowerSymbolStyle::Ground
    } else if contains_text(upper, "EARTH") {
        PowerSymbolStyle::Earth
    } else {
        PowerSymbolStyle::Bar
    }
}

/// Reader of schematic documents.
#[derive(Debug)]
pub struct KicadSchematicImporter;

impl KicadSchematicImporter {
    /// Imports a schematic; identifiers the document lacks are random.
    pub fn import_from_string(content: &str) -> (r: Result<SchematicSheet, KicadError>)
        ensures
            schematic_import_ok(content@, IdPolicy::Random, r),
            r is Err ==> r->Err_0.line is None,
    {
        Self::import_with_policy(content, IdPolicy::Random)
    }

    /// Imports a schematic, with identifiers the document lacks taken from
    /// `policy`.
    pub fn import_with_policy(content: &str, policy: IdPolicy) -> (r: Result<SchematicSheet, KicadError>)
        ensures
            schematic_import_ok(content@, policy, r),
            r is Err ==> r->Err_0.line is None,
    {
        let expr = match parse_document(content) {
            Ok(e) => e,
            Err(err) => {
                return Err(err);
            },
        };
        let is_sheet = match expr.tag() {
            Some(t) => text_eq(t, "kicad_sch"),
            None => false,
        };
        if !is_sheet {
            return Err(KicadError::new("Not a valid KiCAD schematic file"));
        }
        let root = &expr;
        let id = element_id(root, policy, KIND_SHEET, 0);
        let symbols = Self::parse_symbols(root, policy);
        let wires = Self::parse_wires(root, policy);
        let labels = Self::parse_labels(root, policy);
        let junctions = Self::parse_junctions(root, policy);
        let no_connects = Self::parse_no_connects(root, policy);
        let power_symbols = Self::parse_power_symbols(root, policy);
        let buses = Self::parse_buses(root, policy);
        Ok(
            SchematicSheet {
                id,
                name: "Imported".to_owned(),
                symbols,
                wires,
                labels,
                junctions,
                no_connects,
                power_symbols,
                buses,
            },
        )
    }

    fn parse_symbols(root: &SExpr, policy: IdPolicy) -> (r: Vec<PlacedSymbol>)
        ensures
            r@.len() == find_all_spec(root@, "symbol"@).len(),
            forall|k: int|
                0 <= k < r@.len() ==> symbol_ok(
                    #[trigger] r@[k],
                    find_all_spec(root@, "symbol"@)[k],
                    policy,
                    k,
                ),
    {
        let all = root.find_all("symbol");
        let mut out: Vec<PlacedSymbol> = Vec::new();
        let mut i: usize = 0;
        while i < all.len()
            invariant
                all@.len() == find_all_spec(root@, "symbol"@).len(),
                forall|k: int| 0 <= k < all@.len() ==> all@[k]@ == find_all_spec(root@, "symbol"@)[k],
                i <= all@.len(),
                out@.len() == i,
                forall|k: int|
                    0 <= k < i ==> symbol_ok(
                        #[trigger] out@[k],
                        find_all_spec(root@, "symbol"@)[k],
                        policy,
                        k,
                    ),
            decreases all.len() - i,
        {
            out.push(Self::parse_symbol(all[i], policy, i));
            i = i + 1;
        }
        out
    }

    fn parse_symbol(expr: &SExpr, policy: IdPolicy, index: usize) -> (r: PlacedSymbol)
        ensures
            symbol_ok(r, expr@, policy, index as int),
    {
        let lib_id = owned_or(child_atom_of(expr, "lib_id", 1), "unknown:unknown");
        let chars = chars_of(lib_id.as_str());
        let n = chars.len();
        let (library, symbol_name) = match first_index_of(&chars, ':') {
            Some(idx) => (string_from_chars(&chars, 0, idx), string_from_chars(&chars, idx + 1, n)),
            None => ("unknown".to_owned(), lib_id),
        };
        let id = element_id(expr, policy, KIND_SYMBOL, index);
        let mirror_x = match child_atom_of(expr, "mirror", 1) {
            Some(a) => text_eq(a, "x"),
            None => false,
        };
        let mirror_y = match child_atom_of(expr, "mirror", 1) {
            Some(a) => text_eq(a, "y"),
            None => false,
        };
        let reference = owned_or(Self::get_property(expr, "Reference"), "U?");
        let value = owned_or(Self::get_property(expr, "Value"), "");
        let unit = match child_atom_of(expr, "unit", 1) {
            Some(t) => match parse_u32(t) {
                Some(u) => u,
                None => 1,
            },
            None => 1,
        };
        PlacedSymbol {
            id,
            reference,
            value,
            library,
            symbol_name,
            position: at_point_of(expr),
            rotation: at_angle_of(expr),
            mirror_x,
            mirror_y,
            unit,
        }
    }

    /// The value of the first `property` child named `name`.
    fn get_property<'a>(expr: &'a SExpr, name: &str) -> (r: Option<&'a str>)
        ensures
            match r {
                Some(t) => symbol_property(expr@, name@) == Some(t@),
                None => symbol_property(expr@, name@) is None,
            },
    {
        let props = expr.find_all("property");
        let ghost ps = find_all_spec(expr@, "property"@);
        let mut i: usize = 0;
        while i < props.len()
            invariant
                props@.len() == ps.len(),
                ps == find_all_spec(expr@, "property"@),
                forall|k: int| 0 <= k < props@.len() ==> props@[k]@ == ps[k],
                i <= props@.len(),
                prop_value_from(ps, name@, 0) == prop_value_from(ps, name@, i as int),
            decreases props.len() - i,
        {
            let matched = match props[i].get_atom(1) {
                Some(a) => text_eq(a, name),
                None => false,
            };
            if matched {
                return props[i].get_atom(2);
            }
            i = i + 1;
        }
        None
    }

    fn parse_wires(root: &SExpr, policy: IdPolicy) -> (r: Vec<Wire>)
        ensures
            r@.len() == find_all_spec(root@, "wire"@).len(),
            forall|k: int|
                0 <= k < r@.len() ==> wire_ok(#[trigger] r@[k], find_all_spec(root@, "wire"@)[k], policy, k),
    {
        let all = root.find_all("wire");
        let mut out: Vec<Wire> = Vec::new();
        let mut i: usize = 0;
        while i < all.len()
            invariant
                all@.len() == find_all_spec(root@, "wire"@).len(),
                forall|k: int| 0 <= k < all@.len() ==> all@[k]@ == find_all_spec(root@, "wire"@)[k],
                i <= all@.len(),
                out@.len() == i,
                forall|k: int|
                    0 <= k < i ==> wire_ok(#[trigger] out@[k], find_all_spec(root@, "wire"@)[k], policy, k),
            decreases all.len() - i,
        {
            out.push(Self::parse_wire(all[i], policy, i));
            i = i + 1;
        }
        out
    }

    /// The `(xy ...)` points of the `(pts ...)` child.
    fn points_of<'a>(expr: &'a SExpr) -> (r: Vec<&'a SExpr>)
        ensures
            r@.len() == pts_of(expr@).len(),
            forall|k: int| 0 <= k < r@.len() ==> r@[k]@ == pts_of(expr@)[k],
    {
        match expr.find("pts") {
            Some(p) => p.find_all("xy"),
            None => Vec::new(),
        }
    }

    fn parse_wire(expr: &SExpr, policy: IdPolicy, index: usize) -> (r: Wire)
        ensures
            wire_ok(r, expr@, policy, index as int),
    {
        let id = element_id(expr, policy, KIND_WIRE, index);
        let mut start = Point2D { x: Decimal::zero(), y: Decimal::zero() };
        let mut end = Point2D { x: Decimal::zero(), y: Decimal::zero() };
        let xys = Self::points_of(expr);
        if xys.len() >= 2 {
            start = xy_point(xys[0]);
            end = xy_point(xys[1]);
        }
        Wire { id, start, end, net_name: None }
    }

    fn parse_labels(root: &SExpr, policy: IdPolicy) -> (r: Vec<NetLabel>)
        ensures
            labels_ok(r@, root@, policy),
    {
        let mut out: Vec<NetLabel> = Vec::new();
        let a = root.find_all("label");
        let b = root.find_all("global_label");
        let c = root.find_all("hierarchical_label");
        let ghost sa = find_all_spec(root@, "label"@);
        let ghost sb = find_all_spec(root@, "global_label"@);
        let ghost sc = find_all_spec(root@, "hierarchical_label"@);
        let mut i: usize = 0;
        while i < a.len()
            invariant
                a@.len() == sa.len(),
                forall|k: int| 0 <= k < a@.len() ==> a@[k]@ == sa[k],
                i <= a@.len(),
                out@.len() == i,
                forall|k: int| 0 <= k < i ==> label_ok(#[trigger] out@[k], sa[k], LabelType::Local, policy, k),
            decreases a.len() - i,
        {
            out.push(Self::parse_label(a[i], LabelType::Local, policy, i));
            i = i + 1;
        }
        let mut j: usize = 0;
        while j < b.len()
            invariant
                a@.len() == sa.len(),
                b@.len() == sb.len(),
                forall|k: int| 0 <= k < b@.len() ==> b@[k]@ == sb[k],
                j <= b@.len(),
                out@.len() == a@.len() + j,
                forall|k: int| 0 <= k < a@.len() ==> label_ok(#[trigger] out@[k], sa[k], LabelType::Local, policy, k),
                forall|k: int|
                    a@.len() <= k < a@.len() + j ==> label_ok(
                        #[trigger] out@[k],
                        sb[k - a@.len()],
                        LabelType::Global,
                        policy,
                        k,
                    ),
            decreases b.len() - j,
        {
            let k = out.len();
            out.push(Self::parse_label(b[j], LabelType::Global, policy, k));
            j = j + 1;
        }
        let mut m: usize = 0;
        while m < c.len()
            invariant
                a@.len() == sa.len(),
                b@.len() == sb.len(),
                c@.len() == sc.len(),
                forall|k: int| 0 <= k < c@.len() ==> c@[k]@ == sc[k],
                m <= c@.len(),
                out@.len() == a@.len() + b@.len() + m,
                forall|k: int| 0 <= k < a@.len() ==> label_ok(#[trigger] out@[k], sa[k], LabelType::Local, policy, k),
                forall|k: int|
                    a@.len() <= k < a@.len() + b@.len() ==> label_ok(
                        #[trigger] out@[k],
                        sb[k - a@.len()],
                        LabelType::Global,
                        policy,
                        k,
                    ),
                forall|k: int|
                    a@.len() + b@.len() <= k < out@.len() ==> label_ok(
                        #[trigger] out@[k],
                        sc[k - a@.len() - b@.len()],
                        LabelType::Hierarchical,
                        policy,
                        k,
                    ),
            decreases c.len() - m,
        {
            let k = out.len();
            out.push(Self::parse_label(c[m], LabelType::Hierarchical, policy, k));
            m = m + 1;
        }
        out
    }

    fn parse_label(expr: &SExpr, label_type: LabelType, policy: IdPolicy, index: usize) -> (r: NetLabel)
        ensures
            label_ok(r, expr@, label_type, policy, index as int),
    {
        NetLabel {
            id: element_id(expr, policy, KIND_LABEL, index),
            name: owned_or(expr.get_atom(1), ""),
            position: at_point_of(expr),
            label_type,
            rotation: at_angle_of(expr),
        }
    }

    fn parse_junctions(root: &SExpr, policy: IdPolicy) -> (r: Vec<Junction>)
        ensures
            r@.len() == find_all_spec(root@, "junction"@).len(),
            forall|k: int|
                0 <= k < r@.len() ==> junction_ok(#[trigger] r@[k], find_all_spec(root@, "junction"@)[k], policy, k),
    {
        let all = root.find_all("junction");
        let mut out: Vec<Junction> = Vec::new();
        let mut i: usize = 0;
        while i < all.len()
            invariant
                all@.len() == find_all_spec(root@, "junction"@).len(),
                forall|k: int| 0 <= k < all@.len() ==> all@[k]@ == find_all_spec(root@, "junction"@)[k],
                i <= all@.len(),
                out@.len() == i,
                forall|k: int|
                    0 <= k < i ==> junction_ok(#[trigger] out@[k], find_all_spec(root@, "junction"@)[k], policy, k),
            decreases all.len() - i,
        {
            out.push(Self::parse_junction(all[i], policy, i));
            i = i + 1;
        }
        out
    }

    fn parse_junction(expr: &SExpr, policy: IdPolicy, index: usize) -> (r: Junction)
        ensures
            junction_ok(r, expr@, policy, index as int),
    {
        Junction { id: element_id(expr, policy, KIND_JUNCTION, index), position: at_point_of(expr) }
    }

    fn parse_no_connects(root: &SExpr, policy: IdPolicy) -> (r: Vec<NoConnect>)
        ensures
            r@.len() == find_all_spec(root@, "no_connect"@).len(),
            forall|k: int|
                0 <= k < r@.len() ==> no_connect_ok(#[trigger] r@[k], find_all_spec(root@, "no_connect"@)[k], policy, k),
    {
        let all = root.find_all("no_connect");
        let mut out: Vec<NoConnect> = Vec::new();
        let mut i: usize = 0;
        while i < all.len()
            invariant
                all@.len() == find_all_spec(root@, "no_connect"@).len(),
                forall|k: int| 0 <= k < all@.len() ==> all@[k]@ == find_all_spec(root@, "no_connect"@)[k],
                i <= all@.len(),
                out@.len() == i,
                forall|k: int|
                    0 <= k < i ==> no_connect_ok(#[trigger] out@[k], find_all_spec(root@, "no_connect"@)[k], policy, k),
            decreases all.len() - i,
        {
            out.push(Self::parse_no_connect(all[i], policy, i));
            i = i + 1;
        }
        out
    }

    fn parse_no_connect(expr: &SExpr, policy: IdPolicy, index: usize) -> (r: NoConnect)
        ensures
            no_connect_ok(r, expr@, policy, index as int),
    {
        NoConnect { id: element_id(expr, policy, KIND_NO_CONNECT, index), position: at_point_of(expr) }
    }

    /// Whether a placed symbol stands for a power net.
    fn is_power_symbol(expr: &SExpr) -> (r: bool)
        ensures
            r == is_power_spec(expr@),
    {
        match child_atom_of(expr, "lib_id", 1) {
            Some(lib_id) => {
                let lowered = to_lower(lib_id);
                if names_power(lowered.as_str()) {
                    return true;
                }
            },
            None => {},
        }
        let props = expr.find_all("property");
        let ghost ps = find_all_spec(expr@, "property"@);
        let mut i: usize = 0;
        while i < props.len()
            invariant
                props@.len() == ps.len(),
                ps == find_all_spec(expr@, "property"@),
                forall|k: int| 0 <= k < props@.len() ==> props@[k]@ == ps[k],
                i <= props@.len(),
                forall|k: int| 0 <= k < i ==> get_atom_spec(#[trigger] ps[k], 1) != Some("power"@),
                !(match child_atom(expr@, "lib_id"@, 1) {
                    Some(t) => contains_seq(lower_of(t), "power"@),
                    None => false,
                }),
            decreases props.len() - i,
        {
            let named = match props[i].get_atom(1) {
                Some(a) => text_eq(a, "power"),
                None => false,
            };
            if named {
                assert(get_atom_spec(ps[i as int], 1) == Some("power"@));
                return true;
            }
            i = i + 1;
        }
        false
    }

    fn parse_power_symbols(root: &SExpr, policy: IdPolicy) -> (r: Vec<PowerSymbol>)
        ensures
            ({
                let syms = find_all_spec(root@, "symbol"@);
                let pw = power_indices(syms, syms.len() as int);
                &&& r@.len() == pw.len()
                &&& forall|k: int|
                    0 <= k < pw.len() ==> power_ok(#[trigger] r@[k], syms[pw[k]], policy, pw[k])
            }),
    {
        let all = root.find_all("symbol");
        let ghost syms = find_all_spec(root@, "symbol"@);
        let mut out: Vec<PowerSymbol> = Vec::new();
        let mut i: usize = 0;
        while i < all.len()
            invariant
                all@.len() == syms.len(),
                syms == find_all_spec(root@, "symbol"@),
                forall|k: int| 0 <= k < all@.len() ==> all@[k]@ == syms[k],
                i <= all@.len(),
                out@.len() == power_indices(syms, i as int).len(),
                forall|k: int|
                    0 <= k < out@.len() ==> power_ok(
                        #[trigger] out@[k],
                        syms[power_indices(syms, i as int)[k]],
                        policy,
                        power_indices(syms, i as int)[k],
                    ),
            decreases all.len() - i,
        {
            if Self::is_power_symbol(all[i]) {
                out.push(Self::parse_power_symbol(all[i], policy, i));
            }
            i = i + 1;
        }
        out
    }

    fn parse_power_symbol(expr: &SExpr, policy: IdPolicy, index: usize) -> (r: PowerSymbol)
        ensures
            power_ok(r, expr@, policy, index as int),
    {
        let net_name = owned_or(Self::get_property(expr, "Value"), "VCC");
        let upper = to_upper(net_name.as_str());
        let style = power_style_for(upper.as_str());
        PowerSymbol {
            id: element_id(expr, policy, KIND_POWER, index),
            net_name,
            position: at_point_of(expr),
            rotation: at_angle_of(expr),
            style,
        }
    }

    fn parse_buses(root: &SExpr, policy: IdPolicy) -> (r: Vec<Bus>)
        ensures
            r@.len() == find_all_spec(root@, "bus"@).len(),
            forall|k: int|
                0 <= k < r@.len() ==> bus_ok(#[trigger] r@[k], find_all_spec(root@, "bus"@)[k], policy, k),
    {
        let all = root.find_all("bus");
        let mut out: Vec<Bus> = Vec::new();
        let mut i: usize = 0;
        while i < all.len()
            invariant
                all@.len() == find_all_spec(root@, "bus"@).len(),
                forall|k: int| 0 <= k < all@.len() ==> all@[k]@ == find_all_spec(root@, "bus"@)[k],
                i <= all@.len(),
                out@.len() == i,
                forall|k: int|
                    0 <= k < i ==> bus_ok(#[trigger] out@[k], find_all_spec(root@, "bus"@)[k], policy, k),
            decreases all.len() - i,
        {
            out.push(Self::parse_bus(all[i], policy, i));
            i = i + 1;
        }
        out
    }

    fn parse_bus(expr: &SExpr, policy: IdPolicy, index: usize) -> (r: Bus)
        ensures
            bus_ok(r, expr@, policy, index as int),
    {
        let xys = Self::points_of(expr);
        let mut segments: Vec<BusSegment> = Vec::new();
        let mut i: usize = 1;
        while i < xys.len()
            invariant
                xys@.len() == pts_of(expr@).len(),
                forall|k: int| 0 <= k < xys@.len() ==> xys@[k]@ == pts_of(expr@)[k],
                1 <= i,
                i <= xys@.len() || i == 1,
                segments@.len() == i - 1,
                forall|j: int|
                    0 <= j < segments@.len() ==> #[trigger] segments@[j] == (BusSegment {
                        start: xy_of(pts_of(expr@)[j]),
                        end: xy_of(pts_of(expr@)[j + 1]),
                    }),
            decreases xys.len() - i,
        {
            segments.push(BusSegment { start: xy_point(xys[i - 1]), end: xy_point(xys[i]) });
            i = i + 1;
        }
        Bus { id: element_id(expr, policy, KIND_BUS, index), name: "".to_owned(), segments }
    }
}

} // verus!
