use aex::assembly::Assembly;

#[test]
fn assembly_lines() {
    let mut text = Assembly::new();
    text.write_label("start");
    text.write_op_0("nop");
    text.write_op_1("jmp", "start");
    text.write_op_2("adda.l", "d0", "a1");
    text.write_op_3("mac.l", "d0", "d1", "a2");
    text.write_line();
    assert_eq!(
        text.as_str(),
        "start:\n    nop\n    jmp start\n    adda.l d0, a1\n    mac.l d0, d1, a2\n\n"
    );
}

#[test]
fn assembly_op_n_matches_fixed_arities() {
    let mut a = Assembly::new();
    let mut b = Assembly::new();
    a.write_op_n("x", &[]);
    b.write_op_0("x");
    a.write_op_n("x", &["p"]);
    b.write_op_1("x", "p");
    a.write_op_n("x", &["p", "q"]);
    b.write_op_2("x", "p", "q");
    a.write_op_n("x", &["p", "q", "r"]);
    b.write_op_3("x", "p", "q", "r");
    assert_eq!(a.as_str(), b.as_str());
    a.write_op_n("movem", &["d0", "d1", "d2", "d3"]);
    assert!(a.as_str().ends_with("    movem d0, d1, d2, d3\n"));
}

#[test]
fn assembly_clear() {
    let mut a = Assembly::new();
    a.write_label("l");
    a.clear();
    assert_eq!(a.as_str(), "");
}
