//! Components and pins, and their import from a symbol library.
use vstd::prelude::*;
use crate::decimal::Decimal;
use crate::geometry::{Point2D, origin, zero, text_or, owned_or, child_atom, child_atom_of};
use crate::ids::{ElementId, IdPolicy, id_rule, fallback_id, element_id, given_uuid, KIND_COMPONENT};
use crate::parser::{parse_text, parse_document};
use crate::sexpr::{
    SExpr, Tree, KicadError, find_all_spec, get_atom_spec, has_tag, tag_of, tag_is, items_of,
    lemma_items_view,
};
use crate::text::{chars_of, text_eq};

verus! {

/// Electrical class of a pin.
#[derive(Clone, Copy, Debug, PartialEq, Eq, Structural)]
pub enum PinType {
    Input,
    Output,
    Bidirectional,
    PowerInput,
    PowerOutput,
    Ground,
    Passive,
    NoConnect,
    OpenCollector,
    OpenEmitter,
    TriState,
}

/// A pin of a component.
#[derive(Debug)]
pub struct Pin {
    pub id: String,
    pub name: String,
    pub net: Option<String>,
    pub pin_type: PinType,
}

impl Pin {
    /// A passive, unconnected pin.
    pub fn new(id: &str, name: &str) -> (r: Pin)
        ensures
            r.id@ == id@,
            r.name@ == name@,
            r.net is None,
            r.pin_type == PinType::Passive,
    {
        Pin { id: id.to_owned(), name: name.to_owned(), net: None, pin_type: PinType::Passive }
    }

    /// The same pin, connected to `net`.
    pub fn connected_to(self, net: &str) -> (r: Pin)
        ensures
            r.id@ == self.id@,
            r.name@ == self.name@,
            r.net matches Some(n) && n@ == net@,
            r.pin_type == self.pin_type,
    {
        Pin { id: self.id, name: self.name, net: Some(net.to_owned()), pin_type: self.pin_type }
    }
}

/// A reusable component definition.
#[derive(Debug)]
pub struct Component {
    pub id: ElementId,
    pub component_type: String,
    pub reference: String,
    pub value: Option<String>,
    pub symbol: Option<String>,
    pub footprint: Option<String>,
    pub position: Point2D,
    pub rotation: Decimal,
    pub pins: Vec<Pin>,
    /// Key-value properties; no key occurs twice.
    pub properties: Vec<(String, String)>,
}

/// The map that a list of entries stands for; a later entry of a key wins.
pub open spec fn entries_map(e: Seq<(String, String)>) -> Map<Seq<char>, Seq<char>>
    decreases e.len(),
{
    if e.len() == 0 {
        Map::empty()
    } else {
        entries_map(e.drop_last()).insert(e.last().0@, e.last().1@)
    }
}

pub open spec fn keys_unique(e: Seq<(String, String)>) -> bool {
    forall|i: int, j: int| 0 <= i < j < e.len() ==> (#[trigger] e[i]).0@ != (#[trigger] e[j]).0@
}

/// The map of the key-value pairs `p`, inserted in order.
pub open spec fn pairs_map(p: Seq<(Seq<char>, Seq<char>)>) -> Map<Seq<char>, Seq<char>>
    decreases p.len(),
{
    if p.len() == 0 {
        Map::empty()
    } else {
        pairs_map(p.drop_last()).insert(p.last().0, p.last().1)
    }
}

proof fn lemma_entries_set(e: Seq<(String, String)>, j: int, kv: (String, String))
    requires
        0 <= j < e.len(),
        keys_unique(e),
        e[j].0@ == kv.0@,
    ensures
        entries_map(e.update(j, kv)) == entries_map(e).insert(kv.0@, kv.1@),
    decreases e.len(),
{
    let u = e.update(j, kv);
    if j == e.len() - 1 {
        assert(u.drop_last() =~= e.drop_last());
        assert(entries_map(u) =~= entries_map(e).insert(kv.0@, kv.1@));
    } else {
        assert(u.drop_last() =~= e.drop_last().update(j, kv));
        lemma_entries_set(e.drop_last(), j, kv);
        assert(e.last().0@ != kv.0@);
        assert(entries_map(u) =~= entries_map(e).insert(kv.0@, kv.1@));
    }
}

/// Sets `key` to `value` in a property list, in place of an earlier value of
/// the key.
#[verifier::loop_isolation(false)]
pub fn set_property(props: &mut Vec<(String, String)>, key: String, value: String)
    requires
        keys_unique(old(props)@),
    ensures
        keys_unique(final(props)@),
        entries_map(final(props)@) == entries_map(old(props)@).insert(key@, value@),
{
    let kc = chars_of(key.as_str());
    let mut i: usize = 0;
    while i < props.len()
        invariant
            i <= props@.len(),
            props@ == old(props)@,
            kc@ == key@,
            forall|j: int| 0 <= j < i ==> (#[trigger] props@[j]).0@ != key@,
        decreases props.len() - i,
    {
        if text_eq(props[i].0.as_str(), key.as_str()) {
            proof {
                lemma_entries_set(props@, i as int, (key, value));
            }
            let ghost before = props@;
            props.set(i, (key, value));
            assert(props@ == before.update(i as int, (key, value)));
            assert forall|a: int, b: int|
                0 <= a < b < props@.len() implies (#[trigger] props@[a]).0@
                != (#[trigger] props@[b]).0@ by {
                assert(before[a].0@ != before[b].0@);
            }
            return;
        }
        i = i + 1;
    }
    let ghost before = props@;
    props.push((key, value));
    assert(props@.drop_last() =~= before);
    assert forall|a: int, b: int|
        0 <= a < b < props@.len() implies (#[trigger] props@[a]).0@ != (#[trigger] props@[b]).0@ by {
        if b < before.len() {
            assert(before[a].0@ != before[b].0@);
        }
    }
}

impl Component {
    /// A component with a random identifier and nothing but its reference and
    /// type.
    pub fn new(reference: &str, component_type: &str) -> (r: Component)
        ensures
            r.reference@ == reference@,
            r.component_type@ == component_type@,
            r.value is None,
            r.symbol is None,
            r.footprint is None,
            r.position == origin(),
            r.rotation == zero(),
            r.pins@.len() == 0,
            r.properties@.len() == 0,
    {
        Component {
            id: fallback_id(IdPolicy::Random, KIND_COMPONENT, 0),
            component_type: component_type.to_owned(),
            reference: reference.to_owned(),
            value: None,
            symbol: None,
            footprint: None,
            position: Point2D { x: Decimal::zero(), y: Decimal::zero() },
            rotation: Decimal::zero(),
            pins: Vec::new(),
            properties: Vec::new(),
        }
    }

    pub fn with_value(self, value: &str) -> (r: Component)
        ensures
            r.value matches Some(v) && v@ == value@,
            r.id == self.id && r.reference == self.reference && r.component_type
                == self.component_type && r.symbol == self.symbol && r.footprint
                == self.footprint && r.position == self.position && r.rotation == self.rotation
                && r.pins == self.pins && r.properties == self.properties,
    {
        Component { value: Some(value.to_owned()), ..self }
    }

    pub fn with_footprint(self, footprint: &str) -> (r: Component)
        ensures
            r.footprint matches Some(v) && v@ == footprint@,
            r.id == self.id && r.reference == self.reference && r.component_type
                == self.component_type && r.symbol == self.symbol && r.value == self.value
                && r.position == self.position && r.rotation == self.rotation && r.pins
                == self.pins && r.properties == self.properties,
    {
        Component { footprint: Some(footprint.to_owned()), ..self }
    }

    pub fn with_position(self, x: Decimal, y: Decimal) -> (r: Component)
        ensures
            r.position == (Point2D { x, y }),
            r.id == self.id && r.reference == self.reference && r.component_type
                == self.component_type && r.symbol == self.symbol && r.value == self.value
                && r.footprint == self.footprint && r.rotation == self.rotation && r.pins
                == self.pins && r.properties == self.properties,
    {
        Component { position: Point2D { x, y }, ..self }
    }

    pub fn with_pin(self, pin: Pin) -> (r: Component)
        ensures
            r.pins@ == self.pins@.push(pin),
            r.id == self.id && r.reference == self.reference && r.component_type
                == self.component_type && r.symbol == self.symbol && r.value == self.value
                && r.footprint == self.footprint && r.position == self.position && r.rotation
                == self.rotation && r.properties == self.properties,
    {
        let mut c = self;
        c.pins.push(pin);
        c
    }

    pub fn with_property(self, key: &str, value: &str) -> (r: Component)
        requires
            keys_unique(self.properties@),
        ensures
            keys_unique(r.properties@),
            entries_map(r.properties@) == entries_map(self.properties@).insert(key@, value@),
            r.id == self.id && r.reference == self.reference && r.component_type
                == self.component_type && r.symbol == self.symbol && r.value == self.value
                && r.footprint == self.footprint && r.position == self.position && r.rotation
                == self.rotation && r.pins == self.pins,
    {
        let mut c = self;
        set_property(&mut c.properties, key.to_owned(), value.to_owned());
        c
    }
}

/// The class that a pin token names; any other token is passive.
pub open spec fn pin_type_of(t: Seq<char>) -> PinType {
    if t == "input"@ {
        PinType::Input
    } else if t == "output"@ {
        PinType::Output
    } else if t == "bidirectional"@ {
        PinType::Bidirectional
    } else if t == "power_in"@ {
        PinType::PowerInput
    } else if t == "power_out"@ {
        PinType::PowerOutput
    } else if t == "passive"@ {
        PinType::Passive
    } else if t == "no_connect"@ {
        PinType::NoConnect
    } else if t == "open_collector"@ {
        PinType::OpenCollector
    } else if t == "open_emitter"@ {
        PinType::OpenEmitter
    } else if t == "tri_state"@ {
        PinType::TriState
    } else {
        PinType::Passive
    }
}

pub open spec fn known_pin_token(t: Seq<char>) -> bool {
    t == "input"@ || t == "output"@ || t == "bidirectional"@ || t == "power_in"@ || t
        == "power_out"@ || t == "passive"@ || t == "no_connect"@ || t == "open_collector"@ || t
        == "open_emitter"@ || t == "tri_state"@
}

/// The pin class a token names; the mapping is total.
pub fn pin_type_from_token(t: &str) -> (r: PinType)
    ensures
        r == pin_type_of(t@),
        !known_pin_token(t@) ==> r == PinType::Passive,
{
    if text_eq(t, "input") {
        PinType::Input
    } else if text_eq(t, "output") {
        PinType::Output
    } else if text_eq(t, "bidirectional") {
        PinType::Bidirectional
    } else if text_eq(t, "power_in") {
        PinType::PowerInput
    } else if text_eq(t, "power_out") {
        PinType::PowerOutput
    } else if text_eq(t, "passive") {
        PinType::Passive
    } else if text_eq(t, "no_connect") {
        PinType::NoConnect
    } else if text_eq(t, "open_collector") {
        PinType::OpenCollector
    } else if text_eq(t, "open_emitter") {
        PinType::OpenEmitter
    } else if text_eq(t, "tri_state") {
        PinType::TriState
    } else {
        PinType::Passive
    }
}

/// Every descendant of `e` (at any depth, in pre-order) tagged `t`.
pub open spec fn rec_find(e: Tree, t: Seq<char>) -> Seq<Tree>
    decreases e, 0int,
{
    match e {
        Tree::List(l) => rec_items(l, t, l.len() as int),
        Tree::Atom(_) => seq![],
    }
}

/// The search of `rec_find` over the children `l[0..n]`.
pub open spec fn rec_items(l: Seq<Tree>, t: Seq<char>, n: int) -> Seq<Tree>
    decreases l, n,
{
    if n <= 0 || n > l.len() {
        seq![]
    } else {
        let here = if has_tag(l[n - 1], t) {
            seq![l[n - 1]]
        } else {
            seq![]
        };
        rec_items(l, t, n - 1) + here + rec_find(l[n - 1], t)
    }
}

/// The trees that a list of references views.
pub open spec fn views(v: Seq<&SExpr>) -> Seq<Tree> {
    Seq::new(v.len(), |i: int| v[i]@)
}

pub open spec fn pin_ok(p: Pin, e: Tree) -> bool {
    &&& p.id@ == text_or(child_atom(e, "number"@, 1), "1"@)
    &&& p.name@ == text_or(child_atom(e, "name"@, 1), "~"@)
    &&& p.net is None
    &&& p.pin_type == pin_type_of(text_or(get_atom_spec(e, 1), "passive"@))
}

/// The key-value pairs of the `property` children of `e` that have both.
pub open spec fn prop_pairs(props: Seq<Tree>, n: int) -> Seq<(Seq<char>, Seq<char>)>
    decreases n,
{
    if n <= 0 || n > props.len() {
        seq![]
    } else {
        let p = prop_pairs(props, n - 1);
        match (get_atom_spec(props[n - 1], 1), get_atom_spec(props[n - 1], 2)) {
            (Some(k), Some(v)) => p.push((k, v)),
            _ => p,
        }
    }
}

pub open spec fn component_props(e: Tree) -> Map<Seq<char>, Seq<char>> {
    let props = find_all_spec(e, "property"@);
    pairs_map(prop_pairs(props, props.len() as int))
}

pub open spec fn component_ok(c: Component, e: Tree, policy: IdPolicy, k: int) -> bool {
    let name = text_or(get_atom_spec(e, 1), "Unknown"@);
    let pins = rec_find(e, "pin"@);
    &&& id_rule(c.id.value, given_uuid(e), policy, KIND_COMPONENT, k)
    &&& c.component_type@ == name
    &&& c.reference@ == name
    &&& c.value is None
    &&& c.symbol is None
    &&& c.footprint is None
    &&& c.position == origin()
    &&& c.rotation == zero()
    &&& c.pins@.len() == pins.len()
    &&& forall|j: int| 0 <= j < pins.len() ==> pin_ok(#[trigger] c.pins@[j], pins[j])
    &&& keys_unique(c.properties@)
    &&& entries_map(c.properties@) == component_props(e)
}

/// What importing a library text gives: one component for each top-level
/// `symbol`, in order, when the text parses to a list tagged
/// `kicad_symbol_lib`; an error otherwise.
pub open spec fn library_import_ok(content: Seq<char>, policy: IdPolicy, r: Result<Vec<Component>, KicadError>) -> bool {
    match parse_text(content) {
        Some(root) => if tag_of(root) == Some("kicad_symbol_lib"@) {
            r is Ok && r->Ok_0@.len() == find_all_spec(root, "symbol"@).len() && forall|k: int|
                0 <= k < r->Ok_0@.len() ==> component_ok(
                    #[trigger] r->Ok_0@[k],
                    find_all_spec(root, "symbol"@)[k],
                    policy,
                    k,
                )
        } else {
            r is Err
        },
        None => r is Err,
    }
}

/// Reader of symbol libraries.
#[derive(Debug)]
pub struct KicadSymbolLibImporter;

impl KicadSymbolLibImporter {
    /// Imports a symbol library; component identifiers are random.
    pub fn import_from_string(content: &str) -> (r: Result<Vec<Component>, KicadError>)
        ensures
            library_import_ok(content@, IdPolicy::Random, r),
            r is Err ==> r->Err_0.line is None,
    {
        Self::import_with_policy(content, IdPolicy::Random)
    }

    /// Imports a symbol library, with component identifiers from `policy`.
    pub fn import_with_policy(content: &str, policy: IdPolicy) -> (r: Result<Vec<Component>, KicadError>)
        ensures
            library_import_ok(content@, policy, r),
            r is Err ==> r->Err_0.line is None,
    {
        let expr = match parse_document(content) {
            Ok(e) => e,
            Err(err) => {
                return Err(err);
            },
        };
        let is_lib = match expr.tag() {
            Some(t) => text_eq(t, "kicad_symbol_lib"),
            None => false,
        };
        if !is_lib {
            return Err(KicadError::new("Not a valid KiCAD symbol library file"));
        }
        let all = expr.find_all("symbol");
        let ghost syms = find_all_spec(expr@, "symbol"@);
        let mut components: Vec<Component> = Vec::new();
        let mut i: usize = 0;
        while i < all.len()
            invariant
                all@.len() == syms.len(),
                forall|k: int| 0 <= k < all@.len() ==> all@[k]@ == syms[k],
                i <= all@.len(),
                components@.len() == i,
                forall|k: int|
                    0 <= k < i ==> component_ok(#[trigger] components@[k], syms[k], policy, k),
            decreases all.len() - i,
        {
            components.push(Self::parse_symbol(all[i], policy, i));
            i = i + 1;
        }
        Ok(components)
    }

    fn parse_symbol(expr: &SExpr, policy: IdPolicy, index: usize) -> (r: Component)
        ensures
            component_ok(r, expr@, policy, index as int),
    {
        let name = owned_or(expr.get_atom(1), "Unknown");
        let mut component = Component {
            id: element_id(expr, policy, KIND_COMPONENT, index),
            component_type: name.clone(),
            reference: name,
            value: None,
            symbol: None,
            footprint: None,
            position: Point2D { x: Decimal::zero(), y: Decimal::zero() },
            rotation: Decimal::zero(),
            pins: Vec::new(),
            properties: Vec::new(),
        };
        let found = Self::find_all_recursive(expr, "pin");
        let ghost pins = rec_find(expr@, "pin"@);
        let mut i: usize = 0;
        while i < found.len()
            invariant
                views(found@) == pins,
                i <= found@.len(),
                component.pins@.len() == i,
                forall|j: int| 0 <= j < i ==> pin_ok(#[trigger] component.pins@[j], pins[j]),
                component.properties@.len() == 0,
                component_ok_head(component, expr@, policy, index as int),
            decreases found.len() - i,
        {
            assert(found@[i as int]@ == views(found@)[i as int]);
            component.pins.push(Self::parse_pin(found[i]));
            i = i + 1;
        }
        let props = expr.find_all("property");
        let ghost ps = find_all_spec(expr@, "property"@);
        assert(entries_map(component.properties@) =~= pairs_map(prop_pairs(ps, 0)));
        let mut j: usize = 0;
        while j < props.len()
            invariant
                props@.len() == ps.len(),
                forall|k: int| 0 <= k < props@.len() ==> props@[k]@ == ps[k],
                j <= props@.len(),
                keys_unique(component.properties@),
                entries_map(component.properties@) == pairs_map(prop_pairs(ps, j as int)),
                component.pins@.len() == pins.len(),
                forall|m: int| 0 <= m < pins.len() ==> pin_ok(#[trigger] component.pins@[m], pins[m]),
                component_ok_head(component, expr@, policy, index as int),
            decreases props.len() - j,
        {
            let ghost q = prop_pairs(ps, j + 1);
            match (props[j].get_atom(1), props[j].get_atom(2)) {
                (Some(key), Some(value)) => {
                    assert(q.drop_last() == prop_pairs(ps, j as int));
                    set_property(&mut component.properties, key.to_owned(), value.to_owned());
                },
                _ => {},
            }
            j = j + 1;
        }
        component
    }

    /// Every descendant list (at any depth, in pre-order) tagged `tag`.
    fn find_all_recursive<'a>(expr: &'a SExpr, tag: &str) -> (r: Vec<&'a SExpr>)
        ensures
            views(r@) == rec_find(expr@, tag@),
        decreases expr,
    {
        let mut results: Vec<&'a SExpr> = Vec::new();
        let t = chars_of(tag);
        match expr {
            SExpr::List(list) => {
                proof {
                    lemma_items_view(list);
                }
                let ghost items = items_of(expr@);
                assert(expr@ == Tree::List(items));
                let mut i: usize = 0;
                while i < list.len()
                    invariant
                        i <= list@.len(),
                        t@ == tag@,
                        *expr == SExpr::List(*list),
                        items == items_of(expr@),
                        expr@ == Tree::List(items),
                        items.len() == list@.len(),
                        forall|k: int| 0 <= k < list@.len() ==> #[trigger] items[k] == list@[k]@,
                        views(results@) == rec_items(items, tag@, i as int),
                    decreases list.len() - i,
                {
                    let item = &list[i];
                    let ghost before = results@;
                    if tag_is(item, &t) {
                        results.push(item);
                    }
                    let ghost mid = results@;
                    proof {
                        vstd::std_specs::vec::axiom_vec_index_decreases(*list, i as int);
                        assert(decreases_to!(*expr => *list));
                    }
                    let mut sub = Self::find_all_recursive(item, tag);
                    results.append(&mut sub);
                    proof {
                        assert(items[i as int] == item@);
                        if has_tag(item@, tag@) {
                            assert(mid == before.push(item));
                            assert(views(mid) =~= views(before) + seq![item@]);
                        } else {
                            assert(views(mid) =~= views(before) + Seq::<Tree>::empty());
                        }
                        assert(views(results@) =~= views(mid) + rec_find(item@, tag@));
                    }
                    i = i + 1;
                }
                results
            },
            SExpr::Atom(_) => {
                assert(views(results@) =~= Seq::<Tree>::empty());
                results
            },
        }
    }

    fn parse_pin(expr: &SExpr) -> (r: Pin)
        ensures
            pin_ok(r, expr@),
    {
        let type_token = match expr.get_atom(1) {
            Some(t) => t,
            None => "passive",
        };
        let pin_type = pin_type_from_token(type_token);
        let name = owned_or(child_atom_of(expr, "name", 1), "~");
        let number = owned_or(child_atom_of(expr, "number", 1), "1");
        Pin { id: number, name, net: None, pin_type }
    }
}

/// The fields of a component that its pins and properties leave alone.
pub open spec fn component_ok_head(c: Component, e: Tree, policy: IdPolicy, k: int) -> bool {
    let name = text_or(get_atom_spec(e, 1), "Unknown"@);
    &&& id_rule(c.id.value, given_uuid(e), policy, KIND_COMPONENT, k)
    &&& c.component_type@ == name
    &&& c.reference@ == name
    &&& c.value is None
    &&& c.symbol is None
    &&& c.footprint is None
    &&& c.position == origin()
    &&& c.rotation == zero()
}

} // verus!
