use cs_parser::{LocalVariables, OperandStack};

#[test]
fn operand_stack() {
    let mut stack = OperandStack::new();

    stack.push(10);
    stack.push(20);
    stack.push(30);
    stack.push(40);
    stack.swap();

    assert_eq!(stack.pop(), 30);
    assert_eq!(stack.pop(), 40);
    assert_eq!(stack.pop(), 20);
    assert_eq!(stack.pop(), 10);
}

#[test]
fn local_vars() {
    let mut vars = LocalVariables::new(10);

    vars.store(1, 546);
    vars.store(2, 100);
    vars.store2(3, 100, 466);

    assert_eq!(vars.load(1), 546);
    assert_eq!(vars.load(3), 100);
    assert_eq!(vars.load(4), 466);
}

#[test]
fn local_vars_load2() {
    let mut vars = LocalVariables::new(4);
    vars.store2(0, 7, 8);
    assert_eq!(vars.load2(0), (7, 8));
}
