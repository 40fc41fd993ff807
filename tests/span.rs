use tracy_client::span::{Diagnostic, ExitOutcome, SpanStack, VecCell, ZoneContext};

fn zone(id: u32) -> ZoneContext {
    ZoneContext { id, active: 1 }
}

#[test]
fn nested_spans_leave_an_empty_stack_and_no_diagnostic() {
    let mut stack = SpanStack::new();
    stack.enter(zone(1), 10);
    stack.enter(zone(2), 20);
    assert_eq!(
        stack.exit(20),
        ExitOutcome { end_zone: Some(zone(2)), diagnostic: None }
    );
    stack.enter(zone(3), 30);
    assert_eq!(
        stack.exit(30),
        ExitOutcome { end_zone: Some(zone(3)), diagnostic: None }
    );
    assert_eq!(
        stack.exit(10),
        ExitOutcome { end_zone: Some(zone(1)), diagnostic: None }
    );
    assert_eq!(stack.depth(), 0);
}

#[test]
fn out_of_order_exits_still_end_every_zone() {
    let mut stack = SpanStack::new();
    stack.enter(zone(1), 1);
    stack.enter(zone(2), 2);
    stack.enter(zone(3), 3);
    let outcomes = [stack.exit(2), stack.exit(3), stack.exit(1)];
    let ended: Vec<ZoneContext> = outcomes.iter().filter_map(|o| o.end_zone).collect();
    assert_eq!(ended, vec![zone(3), zone(2), zone(1)]);
    let diagnostics = outcomes.iter().filter(|o| o.diagnostic.is_some()).count();
    assert!(diagnostics >= 1);
    assert_eq!(outcomes[0].diagnostic, Some(Diagnostic::ExitedOutOfOrder));
    assert_eq!(stack.depth(), 0);
}

#[test]
fn exit_on_an_empty_stack_ends_nothing() {
    let mut stack = SpanStack::new();
    let outcome = stack.exit(7);
    assert_eq!(outcome.end_zone, None);
    assert_eq!(outcome.diagnostic, Some(Diagnostic::NothingToExit));
    assert_eq!(stack.depth(), 0);
}

#[test]
fn diagnostic_texts() {
    assert_eq!(
        Diagnostic::ExitedOutOfOrder.message(),
        "Tracing spans exited out of order! Trace may not be accurate for this span stack."
    );
    assert_eq!(
        Diagnostic::NothingToExit.message(),
        "Exiting a tracing span, but got nothing on the tracy span stack!"
    );
}

#[test]
fn vec_cell_is_last_in_first_out() {
    let mut cell = VecCell::new();
    assert_eq!(cell.pop(), None::<u8>);
    cell.push(1u8);
    cell.push(2u8);
    assert_eq!(cell.len(), 2);
    assert_eq!(cell.pop(), Some(2));
    assert_eq!(cell.pop(), Some(1));
    assert_eq!(cell.pop(), None);
}
