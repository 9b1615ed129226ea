use hwt_core::decimal::Decimal;
use hwt_core::domain::{parse_domain, HardwareDomain};
use hwt_core::library::{Component, Pin};
use hwt_core::png_export::{PngData, PngExportOptions, PngGenerator};
use hwt_core::project::Project;
use hwt_core::routing::RoutingMode;
use hwt_core::ui::{DomainMode, HardwareToolApp};
use hwt_core::units::LengthUnit;

#[test]
fn test_all_domains() {
    assert_eq!(HardwareDomain::all().len(), 6);
}

#[test]
fn domain_texts() {
    assert_eq!(HardwareDomain::Pcb.display_name(), "PCB Design");
    assert_eq!(HardwareDomain::Mems.accent_color(), "#1ABC9C");
    assert_eq!(HardwareDomain::Packaging.icon(), "\u{1f4e6}");
    assert_eq!(parse_domain("Quantum"), Some(HardwareDomain::Quantum));
    assert_eq!(parse_domain("RF"), Some(HardwareDomain::Rf));
    assert_eq!(parse_domain("fpga"), None);
}

#[test]
fn test_component_builder() {
    let resistor = Component::new("R1", "resistor")
        .with_value("10k")
        .with_footprint("0603")
        .with_position(Decimal::new(100, 0), Decimal::new(50, 0))
        .with_pin(Pin::new("1", "1").connected_to("VCC"))
        .with_pin(Pin::new("2", "2").connected_to("NODE_A"));

    assert_eq!(resistor.reference, "R1");
    assert_eq!(resistor.value, Some("10k".to_string()));
    assert_eq!(resistor.pins.len(), 2);
}

#[test]
fn component_properties_replace_by_key() {
    let c = Component::new("U1", "ic").with_property("a", "1").with_property("b", "2").with_property("a", "3");
    assert_eq!(c.properties.len(), 2);
    assert_eq!(c.properties[0], ("a".to_string(), "3".to_string()));
}

#[test]
fn test_routing_mode_toggle() {
    let mode = RoutingMode::HorizontalFirst;
    assert_eq!(mode.toggle(), RoutingMode::VerticalFirst);
    assert_eq!(mode.toggle().toggle(), RoutingMode::HorizontalFirst);
}

#[test]
fn other_routing_modes_stay() {
    assert_eq!(RoutingMode::Diagonal.toggle(), RoutingMode::Diagonal);
    assert_eq!(RoutingMode::FreeAngle.toggle(), RoutingMode::FreeAngle);
}

#[test]
fn unit_suffixes() {
    assert_eq!(LengthUnit::Mm.suffix(), "mm");
    assert_eq!(LengthUnit::Um.suffix(), "\u{3bc}m");
    assert_eq!(LengthUnit::Inch.suffix(), "in");
}

#[test]
fn new_project_defaults() {
    let p = Project::new("Board", HardwareDomain::Ic);
    assert_eq!(p.project.name, "Board");
    assert_eq!(p.project.version, "0.1.0");
    assert_eq!(p.project.format_version, "1");
    assert!(p.output.gerber && !p.output.step);
    assert!(p.pcb.is_none());
}

#[test]
fn test_app_default() {
    let app = HardwareToolApp::new();
    assert_eq!(app.domain, HardwareDomain::Pcb);
    assert_eq!(app.mode, DomainMode::Schematic);
}

#[test]
fn test_window_title() {
    let mut app = HardwareToolApp::new();
    assert_eq!(app.window_title(), "Hardware Tool");

    app.project_name = Some("My Project".to_string());
    assert_eq!(app.window_title(), "My Project - Hardware Tool");

    app.mark_unsaved();
    assert_eq!(app.window_title(), "My Project \u{2022} - Hardware Tool");
}

#[test]
fn app_state_changes() {
    let mut app = HardwareToolApp::new();
    app.set_domain(HardwareDomain::Mems);
    assert_eq!(app.mode, DomainMode::Device);
    app.set_mode(DomainMode::Code);
    assert_eq!(app.mode, DomainMode::Code);
    app.toggle_left_sidebar();
    assert!(app.left_sidebar_collapsed && !app.right_sidebar_collapsed);
    app.toggle_right_sidebar();
    app.toggle_left_sidebar();
    assert!(!app.left_sidebar_collapsed && app.right_sidebar_collapsed);
    app.mark_unsaved();
    app.mark_saved();
    assert!(!app.unsaved);
}

#[test]
fn test_modes_for_domain() {
    let pcb_modes = DomainMode::modes_for_domain(HardwareDomain::Pcb);
    assert_eq!(pcb_modes.len(), 4);
    assert!(pcb_modes.contains(&DomainMode::Schematic));
}

#[test]
fn test_default_mode() {
    assert_eq!(
        DomainMode::default_for_domain(HardwareDomain::Pcb),
        DomainMode::Schematic
    );
    assert_eq!(
        DomainMode::default_for_domain(HardwareDomain::Ic),
        DomainMode::Rtl
    );
}

#[test]
fn mode_texts() {
    assert_eq!(DomainMode::DieMap.display_name(), "Die Map");
    assert_eq!(DomainMode::Thermal.shortcut(), "F9");
    assert_eq!(DomainMode::Layout.shortcut(), "F6");
    assert_eq!(DomainMode::Code.icon(), "\u{1f4bb}");
    assert_eq!(DomainMode::modes_for_domain(HardwareDomain::Rf)[3], DomainMode::SParams);
}

#[test]
fn test_png_options_default() {
    let options = PngExportOptions::default();
    assert_eq!(options.width, 1920);
    assert_eq!(options.height, 1080);
    assert_eq!(options.dpi, 96);
}

#[test]
fn test_png_options_a4_landscape() {
    let options = PngExportOptions::a4_landscape(300);
    assert!(options.width > 3500);
    assert!(options.height > 2400);
}

#[test]
fn a4_pixel_counts() {
    let l = PngExportOptions::a4_landscape(300);
    assert_eq!((l.width, l.height), (3507, 2480));
    let p = PngExportOptions::a4_portrait(254);
    assert_eq!((p.width, p.height), (2100, 2970));
    let r = PngExportOptions::resolution(640, 480);
    assert_eq!((r.width, r.height, r.dpi), (640, 480, 96));
}

#[test]
fn test_png_options_transparent() {
    let options = PngExportOptions::default().transparent();
    assert!(options.background.is_none());
}

#[test]
fn test_png_generator_new() {
    let generator = PngGenerator::new();
    assert_eq!(generator.options.width, 1920);
}

#[test]
fn test_png_data_estimated_size() {
    let png_data = PngData {
        svg_source: String::new(),
        width: 1920,
        height: 1080,
        dpi: 96,
        background: None,
    };

    assert!(png_data.estimated_size() > 3_000_000);
    assert_eq!(png_data.estimated_size(), 3_110_400);
    assert!(png_data.is_transparent());
    assert_eq!(png_data.dimensions(), (1920, 1080));
}

#[test]
fn test_placeholder_png() {
    let png_data = PngData {
        svg_source: String::new(),
        width: 1,
        height: 1,
        dpi: 96,
        background: Some("#ffffff".to_string()),
    };

    let png = png_data.placeholder_png();

    assert_eq!(&png[0..8], &[0x89, 0x50, 0x4E, 0x47, 0x0D, 0x0A, 0x1A, 0x0A]);
    assert_eq!(png.len(), 69);
    assert_eq!(&png[65..69], &[0xAE, 0x42, 0x60, 0x82]);
}
