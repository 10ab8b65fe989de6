use nargo_debug::path::SourcePath;
use nargo_debug::report::ReportLine;
use nargo_debug::request::{CompileSettings, DebugRequest, UnitSelection};
use nargo_debug::workspace::{Unit, UnitKind, Workspace};

fn path(parts: &[&str]) -> SourcePath {
    SourcePath::new(parts.iter().map(|part| part.to_string()).collect())
}

fn unit(name: &str, kind: UnitKind) -> Unit {
    Unit {
        name: name.to_string(),
        root_dir: format!("/work/{}", name),
        entry_path: path(&[name, "src", "main.nr"]),
        kind,
    }
}

#[test]
fn first_binary_skips_units_that_are_not_binary() {
    let workspace = Workspace::new(
        vec![
            unit("lib_a", UnitKind::NonBinary),
            unit("bin_a", UnitKind::Binary),
            unit("bin_b", UnitKind::Binary),
        ],
        "target".to_string(),
    )
    .unwrap();
    assert_eq!(workspace.first_binary().unwrap().name, "bin_a");
}

#[test]
fn first_binary_is_none_without_a_binary_unit() {
    let workspace = Workspace::new(
        vec![unit("lib_a", UnitKind::NonBinary), unit("lib_b", UnitKind::NonBinary)],
        "target".to_string(),
    )
    .unwrap();
    assert!(workspace.first_binary().is_none());
    let empty = Workspace::new(vec![], "target".to_string()).unwrap();
    assert!(empty.first_binary().is_none());
}

#[test]
fn workspace_refuses_two_units_of_one_name() {
    let twice = Workspace::new(
        vec![unit("a", UnitKind::Binary), unit("b", UnitKind::Binary), unit("a", UnitKind::NonBinary)],
        "target".to_string(),
    );
    assert!(twice.is_none());
}

#[test]
fn workspace_keeps_units_and_target_directory() {
    let workspace = Workspace::new(
        vec![unit("a", UnitKind::Binary), unit("b", UnitKind::NonBinary)],
        "out/target".to_string(),
    )
    .unwrap();
    assert_eq!(workspace.units().len(), 2);
    assert_eq!(workspace.units()[0].name, "a");
    assert_eq!(workspace.units()[1].name, "b");
    assert_eq!(workspace.target_dir(), "out/target");
}

#[test]
fn unit_base_is_the_directory_of_the_entry_file() {
    let u = unit("foo", UnitKind::Binary);
    assert_eq!(u.base(), Some(path(&["foo", "src"])));
    assert!(u.is_binary());
    assert!(!unit("lib", UnitKind::NonBinary).is_binary());
    let bare = Unit {
        name: "bare".to_string(),
        root_dir: ".".to_string(),
        entry_path: path(&["main.nr"]),
        kind: UnitKind::Binary,
    };
    assert_eq!(bare.base(), None);
}

#[test]
fn settings_for_debugging_switch_instrumentation_on() {
    let off = CompileSettings { instrument_debug: false, expression_width: None };
    assert_eq!(off.for_debugging(), CompileSettings { instrument_debug: true, expression_width: None });
    let width = acvm::acir::circuit::ExpressionWidth::Bounded { width: 3 };
    let on = CompileSettings { instrument_debug: true, expression_width: Some(width) };
    assert_eq!(on.for_debugging(), on);
    let asked = CompileSettings { instrument_debug: false, expression_width: Some(width) };
    assert_eq!(asked.for_debugging().expression_width, Some(width));
    assert!(asked.for_debugging().instrument_debug);
}

#[test]
fn selection_follows_the_named_package() {
    let mut request = DebugRequest {
        witness_name: None,
        prover_name: "Prover".to_string(),
        package: None,
        compile: CompileSettings { instrument_debug: false, expression_width: None },
    };
    assert_eq!(request.selection(), UnitSelection::DefaultOrAll);
    request.package = Some("foo".to_string());
    assert_eq!(request.selection(), UnitSelection::Selected("foo".to_string()));
}

#[test]
fn report_lines_render_to_their_exact_text() {
    assert_eq!(
        ReportLine::NoBinaryUnit.render("foo"),
        "No matching binary packages found in workspace. Only binary packages can be debugged."
    );
    assert_eq!(ReportLine::Starting.render("foo"), "[foo] Starting debugger");
    assert_eq!(ReportLine::Halted.render("foo"), "Debugger execution halted.");
    assert_eq!(ReportLine::WitnessSolved.render("foo"), "[foo] Circuit witness successfully solved");
    assert_eq!(ReportLine::CircuitOutput("12".to_string()).render("foo"), "[foo] Circuit output: 12");
    assert_eq!(
        ReportLine::WitnessSaved("target/w.gz".to_string()).render("my_unit"),
        "[my_unit] Witness saved to target/w.gz"
    );
    assert_eq!(ReportLine::Starting.render(""), "[] Starting debugger");
}
