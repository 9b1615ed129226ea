use hwt_core::decimal::Decimal;
use hwt_core::ids::IdPolicy;
use hwt_core::layout::{
    classify_via, pad_shape_from_token, ComponentLayer, KicadPcbImporter, Layout, LayerType,
    PadShape, PadType, ViaType, ZoneFillType,
};
use hwt_core::library::{pin_type_from_token, KicadSymbolLibImporter, PinType};
use hwt_core::schematic::{
    names_power, power_style_for, KicadSchematicImporter, LabelType, PowerSymbolStyle,
};

const SCHEMATIC: &str = r#"
(kicad_sch
  (version 20230121)
  (generator "eeschema")
  (uuid "12345678-1234-1234-1234-123456789abc")
  
  (symbol
    (lib_id "Device:R")
    (at 100 50 0)
    (uuid "aaaaaaaa-aaaa-aaaa-aaaa-aaaaaaaaaaaa")
    (property "Reference" "R1")
    (property "Value" "10k")
  )
  
  (wire
    (pts (xy 90 50) (xy 100 50))
    (uuid "bbbbbbbb-bbbb-bbbb-bbbb-bbbbbbbbbbbb")
  )
  
  (label "NET1"
    (at 95 50 0)
    (uuid "cccccccc-cccc-cccc-cccc-cccccccccccc")
  )
  
  (junction
    (at 100 50)
    (uuid "dddddddd-dddd-dddd-dddd-dddddddddddd")
  )
)
"#;

const LIBRARY: &str = r#"
(kicad_symbol_lib
  (version 20230121)
  (generator "kicad_symbol_editor")
  
  (symbol "R"
    (property "Reference" "R")
    (property "Value" "R")
    (symbol "R_0_1"
      (pin passive line
        (at 0 3.81 270)
        (length 1.27)
        (name "~")
        (number "1")
      )
      (pin passive line
        (at 0 -3.81 90)
        (length 1.27)
        (name "~")
        (number "2")
      )
    )
  )
)
"#;

const PCB: &str = r#"
(kicad_pcb
  (version 20230121)
  (generator "pcbnew")
  
  (layers
    (0 "F.Cu" signal)
    (31 "B.Cu" signal)
  )
  
  (footprint "Resistor_SMD:R_0603"
    (layer "F.Cu")
    (at 100 50 0)
    (fp_text reference "R1" (at 0 -1.5))
    (fp_text value "10k" (at 0 1.5))
    (pad "1" smd rect (at -0.8 0) (size 0.8 0.9) (net 1 "VCC"))
    (pad "2" smd rect (at 0.8 0) (size 0.8 0.9) (net 2 "GND"))
  )
  
  (segment
    (start 90 50)
    (end 99.2 50)
    (width 0.25)
    (layer "F.Cu")
    (net 1)
  )
  
  (via
    (at 95 55)
    (size 0.6)
    (drill 0.3)
    (layers "F.Cu" "B.Cu")
    (net 1)
  )
)
"#;

const ZONE_PCB: &str = r#"
(kicad_pcb
  (version 20230121)
  (generator "pcbnew")
  
  (zone
    (net_name "GND")
    (layer "F.Cu")
    (fill yes)
    (clearance 0.3)
    (min_thickness 0.2)
    (polygon
      (pts
        (xy 0 0)
        (xy 100 0)
        (xy 100 80)
        (xy 0 80)
      )
    )
  )
)
"#;

fn approx(d: Decimal, v: f64) -> bool {
    let value = d.mantissa as f64 / 10f64.powi(d.scale as i32);
    (value - v).abs() < 0.001
}

#[test]
fn test_import_simple_schematic() {
    let sheet = KicadSchematicImporter::import_from_string(SCHEMATIC).unwrap();

    assert_eq!(sheet.symbols.len(), 1);
    assert_eq!(sheet.symbols[0].reference, "R1");
    assert_eq!(sheet.symbols[0].value, "10k");

    assert_eq!(sheet.wires.len(), 1);
    assert_eq!(sheet.labels.len(), 1);
    assert_eq!(sheet.labels[0].name, "NET1");
    assert_eq!(sheet.junctions.len(), 1);
}

#[test]
fn schematic_scenario_fields() {
    let sheet = KicadSchematicImporter::import_from_string(SCHEMATIC).unwrap();
    let s = &sheet.symbols[0];
    assert_eq!(s.library, "Device");
    assert_eq!(s.symbol_name, "R");
    assert_eq!(s.position.x, Decimal::new(100, 0));
    assert_eq!(s.position.y, Decimal::new(50, 0));
    assert_eq!(s.unit, 1);
    assert!(!s.mirror_x && !s.mirror_y);
    assert_eq!(s.id.value, 0xaaaaaaaa_aaaa_aaaa_aaaa_aaaaaaaaaaaa);
    assert_eq!(sheet.id.value, 0x12345678_1234_1234_1234_123456789abc);
    assert_eq!(sheet.name, "Imported");
    assert_eq!(sheet.wires[0].start.x, Decimal::new(90, 0));
    assert_eq!(sheet.wires[0].end.x, Decimal::new(100, 0));
    assert!(sheet.wires[0].net_name.is_none());
    assert_eq!(sheet.labels[0].label_type, LabelType::Local);
    assert!(sheet.power_symbols.is_empty());
    assert!(sheet.buses.is_empty());
    assert!(sheet.no_connects.is_empty());
}

#[test]
fn schematic_defaults_and_power_symbols() {
    let text = r#"(kicad_sch
      (symbol (lib_id "Power:gnd") (property "Value" "gnd") (mirror y) (unit 2))
      (symbol (lib_id "NoColon") (property "power" "x"))
      (symbol (property "Value" "EARTH_1"))
      (bus (pts (xy 0 0) (xy 1 0) (xy 1 1)))
      (bus (pts (xy 5 5)))
      (global_label "G")
      (hierarchical_label "H")
      (label "L")
      (no_connect (at 3 4))
      (wire (pts (xy 1 2))))"#;
    let sheet = KicadSchematicImporter::import_from_string(text).unwrap();
    assert_eq!(sheet.symbols.len(), 3);
    assert_eq!(sheet.symbols[0].library, "Power");
    assert_eq!(sheet.symbols[0].symbol_name, "gnd");
    assert!(sheet.symbols[0].mirror_y && !sheet.symbols[0].mirror_x);
    assert_eq!(sheet.symbols[0].unit, 2);
    assert_eq!(sheet.symbols[0].reference, "U?");
    assert_eq!(sheet.symbols[1].library, "unknown");
    assert_eq!(sheet.symbols[1].symbol_name, "NoColon");
    assert_eq!(sheet.symbols[2].library, "unknown");
    assert_eq!(sheet.symbols[2].symbol_name, "unknown");
    assert_eq!(sheet.power_symbols.len(), 2);
    assert_eq!(sheet.power_symbols[0].net_name, "gnd");
    assert_eq!(sheet.power_symbols[0].style, PowerSymbolStyle::Ground);
    assert_eq!(sheet.power_symbols[1].net_name, "VCC");
    assert_eq!(sheet.power_symbols[1].style, PowerSymbolStyle::Bar);
    assert_eq!(sheet.buses.len(), 2);
    assert_eq!(sheet.buses[0].segments.len(), 2);
    assert_eq!(sheet.buses[0].segments[1].end.y, Decimal::new(1, 0));
    assert_eq!(sheet.buses[1].segments.len(), 0);
    assert_eq!(sheet.labels.len(), 3);
    assert_eq!(sheet.labels[0].name, "L");
    assert_eq!(sheet.labels[0].label_type, LabelType::Local);
    assert_eq!(sheet.labels[1].label_type, LabelType::Global);
    assert_eq!(sheet.labels[2].label_type, LabelType::Hierarchical);
    assert_eq!(sheet.no_connects[0].position.y, Decimal::new(4, 0));
    assert_eq!(sheet.wires[0].start.x, Decimal::zero());
    assert_eq!(sheet.wires[0].end.x, Decimal::zero());
}

#[test]
fn power_helpers_take_converted_text() {
    assert!(names_power("power:gnd"));
    assert!(!names_power("Power:GND"));
    assert_eq!(power_style_for("AGND"), PowerSymbolStyle::Ground);
    assert_eq!(power_style_for("EARTH"), PowerSymbolStyle::Earth);
    assert_eq!(power_style_for("gnd"), PowerSymbolStyle::Bar);
    assert_eq!(power_style_for("+5V"), PowerSymbolStyle::Bar);
}

#[test]
fn reimport_with_derived_ids_is_identical() {
    let text = "(kicad_sch (symbol (lib_id \"A:B\")) (wire (pts (xy 1 2) (xy 3 4))) (junction (at 1 1) (uuid \"not-a-uuid\")))";
    let a = KicadSchematicImporter::import_with_policy(text, IdPolicy::Derived(7)).unwrap();
    let b = KicadSchematicImporter::import_with_policy(text, IdPolicy::Derived(7)).unwrap();
    assert_eq!(a.id, b.id);
    assert_eq!(a.symbols.len(), b.symbols.len());
    assert_eq!(a.symbols[0].id, b.symbols[0].id);
    assert_eq!(a.symbols[0].symbol_name, b.symbols[0].symbol_name);
    assert_eq!(a.wires[0].id, b.wires[0].id);
    assert_eq!(a.wires[0].end, b.wires[0].end);
    assert_eq!(a.junctions[0].id, b.junctions[0].id);
    assert_ne!(a.symbols[0].id, a.wires[0].id);
    assert_eq!(a.symbols[0].id.value, (7u128 << 64) | (1u128 << 48));
}

#[test]
fn reimport_keeps_given_ids_with_random_fallback() {
    let a = KicadSchematicImporter::import_from_string(SCHEMATIC).unwrap();
    let b = KicadSchematicImporter::import_from_string(SCHEMATIC).unwrap();
    assert_eq!(a.symbols[0].id, b.symbols[0].id);
    assert_eq!(a.wires[0].id, b.wires[0].id);
    assert_eq!(a.labels[0].id, b.labels[0].id);
    assert_eq!(a.junctions[0].id, b.junctions[0].id);
    assert_eq!(a.symbols[0].reference, b.symbols[0].reference);
    let pa = KicadPcbImporter::import_from_string(PCB).unwrap();
    let pb = KicadPcbImporter::import_from_string(PCB).unwrap();
    assert_eq!(pa.traces[0].end, pb.traces[0].end);
    assert_eq!(pa.components[0].pads.len(), pb.components[0].pads.len());
    assert_ne!(pa.components[0].id, pb.components[0].id);
}

#[test]
fn wrong_root_tag_fails_everywhere() {
    assert!(KicadSchematicImporter::import_from_string("(kicad_pcb)").is_err());
    assert!(KicadSymbolLibImporter::import_from_string("(kicad_sch)").is_err());
    assert!(KicadPcbImporter::import_from_string("(kicad_symbol_lib)").is_err());
    assert!(KicadSchematicImporter::import_from_string("kicad_sch").is_err());
    assert!(KicadPcbImporter::import_from_string("(kicad_pcb").is_err());
}

#[test]
fn test_import_symbol_library() {
    let components = KicadSymbolLibImporter::import_from_string(LIBRARY).unwrap();

    assert_eq!(components.len(), 1);
    assert_eq!(components[0].component_type, "R");
    assert_eq!(components[0].pins.len(), 2);
    assert_eq!(components[0].pins[0].id, "1");
    assert_eq!(components[0].pins[1].id, "2");
}

#[test]
fn library_pins_and_properties() {
    let components = KicadSymbolLibImporter::import_from_string(LIBRARY).unwrap();
    let c = &components[0];
    assert_eq!(c.reference, "R");
    assert_eq!(c.pins[0].name, "~");
    assert_eq!(c.pins[0].pin_type, PinType::Passive);
    assert!(c.pins[0].net.is_none());
    assert_eq!(c.properties.len(), 2);
    assert!(c.properties.iter().any(|(k, v)| k == "Reference" && v == "R"));
    let text = "(kicad_symbol_lib (symbol (pin weird) (pin input (number 5) (name VIN)) (property K a) (property K b)))";
    let c2 = &KicadSymbolLibImporter::import_from_string(text).unwrap()[0];
    assert_eq!(c2.component_type, "Unknown");
    assert_eq!(c2.pins[0].pin_type, PinType::Passive);
    assert_eq!(c2.pins[0].id, "1");
    assert_eq!(c2.pins[1].pin_type, PinType::Input);
    assert_eq!(c2.pins[1].id, "5");
    assert_eq!(c2.pins[1].name, "VIN");
    assert_eq!(c2.properties.len(), 1);
    assert_eq!(c2.properties[0].1, "b");
}

#[test]
fn token_mappings_are_total() {
    assert_eq!(pin_type_from_token("tri_state"), PinType::TriState);
    assert_eq!(pin_type_from_token("power_out"), PinType::PowerOutput);
    assert_eq!(pin_type_from_token("free"), PinType::Passive);
    assert_eq!(pin_type_from_token(""), PinType::Passive);
    assert_eq!(pad_shape_from_token("roundrect"), PadShape::RoundRect);
    assert_eq!(pad_shape_from_token("hexagon"), PadShape::Rect);
    assert_eq!(pad_shape_from_token(""), PadShape::Rect);
}

#[test]
fn test_import_simple_pcb() {
    let layout = KicadPcbImporter::import_from_string(PCB).unwrap();

    assert_eq!(layout.components.len(), 1);
    assert_eq!(layout.components[0].reference, "R1");
    assert_eq!(layout.components[0].value, "10k");
    assert_eq!(layout.components[0].pads.len(), 2);

    assert_eq!(layout.traces.len(), 1);
    assert!(approx(layout.traces[0].width, 0.25));

    assert_eq!(layout.vias.len(), 1);
    assert!(approx(layout.vias[0].pad, 0.6));
    assert!(approx(layout.vias[0].drill, 0.3));
}

#[test]
fn pcb_scenario_fields() {
    let layout = KicadPcbImporter::import_from_string(PCB).unwrap();
    let fp = &layout.components[0];
    assert_eq!(fp.footprint, "Resistor_SMD:R_0603");
    assert_eq!(fp.layer, ComponentLayer::Top);
    assert_eq!(fp.pads[0].number, "1");
    assert_eq!(fp.pads[0].pad_type, PadType::Smd);
    assert_eq!(fp.pads[0].shape, PadShape::Rect);
    assert_eq!(fp.pads[0].position.x, Decimal::new(-8, 1));
    assert_eq!(fp.pads[0].size, (Decimal::new(8, 1), Decimal::new(9, 1)));
    assert_eq!(fp.pads[1].net.as_deref(), Some("GND"));
    assert_eq!(layout.traces[0].width, Decimal::new(25, 2));
    assert_eq!(layout.traces[0].net, "1");
    assert_eq!(layout.traces[0].end.x, Decimal::new(992, 1));
    assert_eq!(layout.vias[0].via_type, ViaType::Through);
    assert_eq!(layout.vias[0].pad, Decimal::new(6, 1));
    assert_eq!(layout.vias[0].drill, Decimal::new(3, 1));
    assert_eq!(layout.vias[0].start_layer.as_deref(), Some("F.Cu"));
    assert_eq!(layout.vias[0].end_layer.as_deref(), Some("B.Cu"));
    let names: Vec<&str> = layout.layers.iter().map(|l| l.name.as_str()).collect();
    assert_eq!(names, vec!["F.Cu", "B.Cu", "F.SilkS", "B.SilkS", "F.Mask", "B.Mask", "Edge.Cuts"]);
    assert_eq!(layout.layers[0].layer_type, LayerType::Copper);
    assert_eq!(layout.layers[4].layer_type, LayerType::SolderMask);
}

#[test]
fn test_import_pcb_with_zone() {
    let layout = KicadPcbImporter::import_from_string(ZONE_PCB).unwrap();

    assert_eq!(layout.zones.len(), 1);
    assert_eq!(layout.zones[0].net, "GND");
    assert_eq!(layout.zones[0].layer, "F.Cu");
    assert_eq!(layout.zones[0].points.len(), 4);
}

#[test]
fn zone_scenario_fields() {
    let layout = KicadPcbImporter::import_from_string(ZONE_PCB).unwrap();
    let z = &layout.zones[0];
    assert_eq!(z.fill_type, ZoneFillType::Solid);
    assert_eq!(z.clearance, Some(Decimal::new(3, 1)));
    assert_eq!(z.min_width, Some(Decimal::new(2, 1)));
    assert_eq!(z.points[2].x, Decimal::new(100, 0));
    assert_eq!(z.points[2].y, Decimal::new(80, 0));
    assert_eq!(layout.layers.len(), 7);
    let unfilled = KicadPcbImporter::import_from_string("(kicad_pcb (zone (fill no)) (zone))").unwrap();
    assert_eq!(unfilled.zones[0].fill_type, ZoneFillType::Unfilled);
    assert_eq!(unfilled.zones[1].fill_type, ZoneFillType::Solid);
    assert_eq!(unfilled.zones[1].net, "");
    assert_eq!(unfilled.zones[1].layer, "F.Cu");
    assert!(unfilled.zones[1].points.is_empty());
}

#[test]
fn test_import_pcb_invalid_file() {
    let content = "(kicad_sch (version 1))";
    let result = KicadPcbImporter::import_from_string(content);
    assert!(result.is_err());
}

#[test]
fn incomplete_segment_or_via_fails_import() {
    assert!(KicadPcbImporter::import_from_string("(kicad_pcb (segment (start 0 0)))").is_err());
    assert!(KicadPcbImporter::import_from_string("(kicad_pcb (segment (end 0 0)))").is_err());
    assert!(KicadPcbImporter::import_from_string("(kicad_pcb (via (size 1)))").is_err());
    let ok = KicadPcbImporter::import_from_string(
        "(kicad_pcb (segment (start 0 0) (end 1 1)) (via (at 2 2)) (footprint) (pad))",
    )
    .unwrap();
    assert_eq!(ok.traces[0].width, Decimal::new(25, 2));
    assert_eq!(ok.traces[0].layer, "F.Cu");
    assert_eq!(ok.traces[0].net, "");
    assert_eq!(ok.vias[0].pad, Decimal::new(6, 1));
    assert_eq!(ok.vias[0].drill, Decimal::new(3, 1));
    assert_eq!(ok.components[0].footprint, "Unknown");
    assert_eq!(ok.components[0].reference, "U?");
    assert_eq!(ok.components[0].value, "");
}

#[test]
fn footprint_side_and_pad_defaults() {
    let text = "(kicad_pcb (layers (0 In1.Cu power) (44 Edge.Cuts user) (1 short)) (footprint \"F\" (layer \"B.Cu\") (pad \"3\" thru_hole hexagon (drill 1.1))))";
    let layout = KicadPcbImporter::import_from_string(text).unwrap();
    let fp = &layout.components[0];
    assert_eq!(fp.layer, ComponentLayer::Bottom);
    let pad = &fp.pads[0];
    assert_eq!(pad.pad_type, PadType::ThruHole);
    assert_eq!(pad.shape, PadShape::Rect);
    assert_eq!(pad.drill, Decimal::new(11, 1));
    assert_eq!(pad.size, (Decimal::new(1, 0), Decimal::new(1, 0)));
    assert!(pad.net.is_none());
    let names: Vec<&str> = layout.layers.iter().map(|l| l.name.as_str()).collect();
    assert_eq!(names, vec!["In1.Cu", "Edge.Cuts", "F.SilkS", "B.SilkS", "F.Mask", "B.Mask"]);
    assert_eq!(layout.layers[0].layer_type, LayerType::Copper);
    assert_eq!(layout.layers[1].layer_type, LayerType::Fabrication);
}

#[test]
fn via_classes() {
    let s = |v: &[&str]| v.iter().map(|x| x.to_string()).collect::<Vec<String>>();
    let (t, a, b) = classify_via(&s(&["F.Cu", "B.Cu"]));
    assert_eq!(t, ViaType::Through);
    assert_eq!(a.as_deref(), Some("F.Cu"));
    assert_eq!(b.as_deref(), Some("B.Cu"));
    let (t, _, b) = classify_via(&s(&["F.Cu", "In1.Cu", "In2.Cu"]));
    assert_eq!(t, ViaType::Blind);
    assert_eq!(b.as_deref(), Some("In2.Cu"));
    let (t, _, _) = classify_via(&s(&["B.Cu", "F.Cu"]));
    assert_eq!(t, ViaType::Blind);
    let (t, a, b) = classify_via(&s(&["F.Cu"]));
    assert_eq!(t, ViaType::Through);
    assert!(a.is_none() && b.is_none());
    let layout = KicadPcbImporter::import_from_string("(kicad_pcb (via (at 0 0) (layers \"F.Cu\" \"In1.Cu\")))").unwrap();
    assert_eq!(layout.vias[0].via_type, ViaType::Blind);
}

#[test]
fn test_layout_default() {
    let layout = Layout::default();
    assert!(layout.layers.is_empty());
    assert!(layout.traces.is_empty());
}

#[test]
fn reimport_library_and_pcb_with_derived_ids() {
    let a = KicadSymbolLibImporter::import_with_policy(LIBRARY, IdPolicy::Derived(3)).unwrap();
    let b = KicadSymbolLibImporter::import_with_policy(LIBRARY, IdPolicy::Derived(3)).unwrap();
    assert_eq!(a.len(), b.len());
    assert_eq!(a[0].id, b[0].id);
    assert_eq!(a[0].pins.len(), b[0].pins.len());
    assert_eq!(a[0].pins[1].id, b[0].pins[1].id);
    assert_eq!(a[0].properties, b[0].properties);
    let x = KicadPcbImporter::import_with_policy(PCB, IdPolicy::Derived(3)).unwrap();
    let y = KicadPcbImporter::import_with_policy(PCB, IdPolicy::Derived(3)).unwrap();
    assert_eq!(x.components[0].id, y.components[0].id);
    assert_eq!(x.components[0].pads[1].size, y.components[0].pads[1].size);
    assert_eq!(x.vias[0].position, y.vias[0].position);
    assert_eq!(x.layers.len(), y.layers.len());
}

#[test]
fn malformed_elements_do_not_stop_a_schematic() {
    let text = "(kicad_sch (symbol) (wire) (label) (junction (at x y)) (no_connect (uuid 5)) (bus (pts)) (symbol (lib_id \"A:B\")))";
    let sheet = KicadSchematicImporter::import_from_string(text).unwrap();
    assert_eq!(sheet.symbols.len(), 2);
    assert_eq!(sheet.symbols[1].library, "A");
    assert_eq!(sheet.wires.len(), 1);
    assert_eq!(sheet.labels.len(), 1);
    assert_eq!(sheet.labels[0].name, "");
    assert_eq!(sheet.junctions[0].position.x, Decimal::zero());
    assert_eq!(sheet.no_connects.len(), 1);
    assert_eq!(sheet.buses[0].segments.len(), 0);
}

#[test]
fn declared_layers_get_the_standard_layers() {
    let layout = KicadPcbImporter::import_from_string("(kicad_pcb (layers (0 \"F.Cu\" signal)))").unwrap();
    let names: Vec<&str> = layout.layers.iter().map(|l| l.name.as_str()).collect();
    assert_eq!(names, vec!["F.Cu", "F.SilkS", "B.SilkS", "F.Mask", "B.Mask", "Edge.Cuts"]);
    let plain = KicadPcbImporter::import_from_string("(kicad_pcb)").unwrap();
    assert_eq!(plain.layers.len(), 7);
    assert_eq!(plain.layers[1].name, "B.Cu");
}

#[test]
fn given_footprint_and_symbol_ids_are_kept() {
    let pcb = "(kicad_pcb (footprint \"F\" (uuid \"01234567-89ab-cdef-0123-456789ABCDEF\")))";
    let layout = KicadPcbImporter::import_from_string(pcb).unwrap();
    assert_eq!(layout.components[0].id.value, 0x0123456789abcdef0123456789abcdef);
    let lib = "(kicad_symbol_lib (symbol \"R\" (uuid \"0123456789abcdef0123456789abcdef\")))";
    let comps = KicadSymbolLibImporter::import_from_string(lib).unwrap();
    assert_eq!(comps[0].id.value, 0x0123456789abcdef0123456789abcdef);
}
