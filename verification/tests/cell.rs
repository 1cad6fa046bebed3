use in_place_once_cell::cell::InPlaceOnceCell;
use in_place_once_cell::cell::CELL_NAME;
use in_place_once_cell::render::{render_tuple, shown_text, UNTOUCHED};
use std::cell::Cell;
use std::rc::Rc;

const U32_INIT: u32 = 34;
const U32_MUTATED: u32 = U32_INIT * U32_INIT;

/// A test mutator
fn u32_square(v: &mut u32) {
    *v = *v * *v;
}

/// Another test mutator
fn u32_increment(v: &mut u32) {
    *v = *v + 1;
}

/// A mutator that gives up on large values, after it has halved them.
fn u32_square_below_100(v: &mut u32) -> Result<(), String> {
    if *v < 100 {
        *v = *v * *v;
        Ok(())
    } else {
        *v = *v / 2;
        Err(format!("too large, now {}", *v))
    }
}

/// Counts how often it has been dropped.
struct Droppable {
    drops: Rc<Cell<u32>>,
}

impl Drop for Droppable {
    fn drop(&mut self) {
        self.drops.set(self.drops.get() + 1);
    }
}

#[test]
/// Test basic functionality
fn basic() {
    let mut c = InPlaceOnceCell::new(34);
    assert!(c.get().is_none());

    assert_eq!(c.get_or_mutate(|v| *v = *v * *v), &1156);
    assert_eq!(c.get(), Some(&1156));
    assert_eq!(c.get_or_mutate(|v| *v = *v + 1), &1156);
}

#[test]
fn cell_drop() {
    let drops = Rc::new(Cell::new(0));

    {
        let mut cell = InPlaceOnceCell::new(Droppable { drops: drops.clone() });

        assert!(cell.get().is_none());
        assert!(drops.get() == 0);

        cell.get_or_mutate(|_: &mut Droppable| {});
        assert!(cell.get().is_some());
        assert!(drops.get() == 0);
    }

    assert!(drops.get() == 1);
}

#[test]
fn cell_drop_untouched() {
    let drops = Rc::new(Cell::new(0));

    {
        let cell = InPlaceOnceCell::new(Droppable { drops: drops.clone() });
        assert!(cell.get().is_none());
        assert_eq!(drops.get(), 0);
    }

    assert_eq!(drops.get(), 1);
}

#[test]
fn cell_into_inner_hands_the_value_over_undropped() {
    let drops = Rc::new(Cell::new(0));

    let cell = InPlaceOnceCell::new(Droppable { drops: drops.clone() });
    let value = cell.into_inner();
    assert_eq!(drops.get(), 0);
    drop(value);
    assert_eq!(drops.get(), 1);
}

#[test]
fn cell_debug_impl() {
    let mut cell = InPlaceOnceCell::new(U32_INIT);

    assert!(cell.get().is_none());
    assert_eq!(cell.debug_string(), "InPlaceOnceCell(<untouched>)");

    assert_eq!(cell.get_or_mutate(u32_square), &U32_MUTATED);
    assert!(cell.get().is_some());

    assert_eq!(
        cell.debug_string(),
        format!("InPlaceOnceCell({U32_MUTATED})")
    );
}

#[test]
fn cell_from_impl() {
    let mut cell = InPlaceOnceCell::from(U32_INIT);
    assert!(cell.get().is_none());
    assert_eq!(cell.get_or_mutate(u32_square), &U32_MUTATED);
}

#[test]
fn cell_eq_impl() {
    let mut l = InPlaceOnceCell::new(U32_INIT);
    let mut r = InPlaceOnceCell::new(U32_MUTATED - 1);
    assert!(l == r);
    assert_eq!(l.get_or_mutate(u32_square), r.get_or_mutate(u32_increment));
    assert!(l == r);
}

#[test]
fn cell_literal_scenario() {
    let mut cell = InPlaceOnceCell::new(34u32);
    assert_eq!(cell.get(), None);
    assert_eq!(cell.debug_string(), "InPlaceOnceCell(<untouched>)");
    assert_eq!(cell.get_or_mutate(|v| *v *= *v), &1156);
    assert_eq!(cell.get(), Some(&1156));
    assert_eq!(cell.debug_string(), "InPlaceOnceCell(1156)");
    assert_eq!(cell.get_or_mutate(|v| *v += 1), &1156);
    assert_eq!(cell.get(), Some(&1156));
}

#[test]
fn cell_debug_text_is_that_of_the_value() {
    let mut cell = InPlaceOnceCell::new(String::from("a\"b"));
    cell.get_or_mutate(|s| s.push('c'));
    assert_eq!(cell.debug_string(), "InPlaceOnceCell(\"a\\\"bc\")");

    let mut nested = InPlaceOnceCell::new(vec![Some(1u8), None]);
    nested.get_or_mutate(|v| v.push(Some(3)));
    assert_eq!(nested.debug_string(), "InPlaceOnceCell([Some(1), None, Some(3)])");
}

#[test]
fn shown_text_is_the_debug_form_of_the_value() {
    assert_eq!(shown_text(&1156u32), "1156");
    assert_eq!(shown_text(&String::from("ab")), "\"ab\"");
    assert_eq!(shown_text(&Some(-3i8)), "Some(-3)");
    assert_eq!(shown_text(&'x'), "'x'");
}

#[test]
fn cell_debug_text_is_the_name_around_the_shown_value() {
    assert_eq!(CELL_NAME, "InPlaceOnceCell");
    assert_eq!(UNTOUCHED, "<untouched>");

    let mut cell = InPlaceOnceCell::new(vec![1u8]);
    assert_eq!(cell.debug_string(), render_tuple(CELL_NAME, None));
    cell.get_or_mutate(|v| v.push(2));
    assert_eq!(
        cell.debug_string(),
        render_tuple(CELL_NAME, Some(shown_text(&vec![1u8, 2])))
    );
    assert_eq!(cell.debug_string(), "InPlaceOnceCell([1, 2])");
}

#[test]
fn render_tuple_wraps_the_field_in_the_name() {
    assert_eq!(render_tuple("Name", None), "Name(<untouched>)");
    assert_eq!(render_tuple("Name", Some(String::from("1156"))), "Name(1156)");
    assert_eq!(render_tuple("", Some(String::new())), "()");
    assert_eq!(render_tuple("N", Some(String::from("<untouched>"))), "N(<untouched>)");
}

#[test]
fn cell_first_mutation_wins_and_later_closures_never_run() {
    let calls = Cell::new(0u32);
    let mut cell = InPlaceOnceCell::new(7u64);
    assert!(!cell.is_mutated());

    let first = *cell.get_or_mutate(|v| {
        calls.set(calls.get() + 1);
        *v = *v * 6;
    });
    assert_eq!(first, 42);
    assert_eq!(calls.get(), 1);
    assert!(cell.is_mutated());

    for round in 0..10u64 {
        let again = *cell.get_or_mutate(|v| {
            calls.set(calls.get() + 1);
            *v = round;
        });
        assert_eq!(again, 42);
    }
    assert_eq!(calls.get(), 1);
    assert_eq!(cell.get(), Some(&42));
    assert_eq!(cell.into_inner(), 42);
}

#[test]
fn cell_mutation_reuses_the_value_in_place() {
    let mut text = String::with_capacity(64);
    text.push_str("abc");
    let room = text.capacity();
    let mut cell = InPlaceOnceCell::new(text);
    let frozen = cell.get_or_mutate(|s| s.push_str("def"));
    assert_eq!(frozen, "abcdef");
    assert_eq!(frozen.capacity(), room);
}

#[test]
fn cell_get_mut_is_a_pure_query() {
    let mut cell = InPlaceOnceCell::new(U32_INIT);
    assert_eq!(cell.get_mut(), None);
    assert!(!cell.is_mutated());
    assert_eq!(cell.get(), None);

    cell.get_or_mutate(u32_square);
    match cell.get_mut() {
        Some(value) => {
            assert_eq!(*value, U32_MUTATED);
            *value = 5;
        }
        None => panic!("a mutated cell hands out its value"),
    }
    assert!(cell.is_mutated());
    assert_eq!(cell.get(), Some(&5));
}

#[test]
fn cell_get_mut_or_mutate() {
    let mut cell = InPlaceOnceCell::new(U32_INIT);
    {
        let value = cell.get_mut_or_mutate(u32_square);
        assert_eq!(*value, U32_MUTATED);
        *value += 4;
    }
    assert_eq!(cell.get(), Some(&(U32_MUTATED + 4)));
    assert_eq!(*cell.get_mut_or_mutate(u32_square), U32_MUTATED + 4);
    assert_eq!(cell.into_inner(), U32_MUTATED + 4);
}

#[test]
fn cell_failed_mutation_leaves_the_cell_retryable() {
    let mut cell = InPlaceOnceCell::new(300u32);

    assert_eq!(
        cell.get_or_try_mutate(u32_square_below_100),
        Err(String::from("too large, now 150"))
    );
    assert!(!cell.is_mutated());
    assert_eq!(cell.get(), None);
    assert_eq!(cell.debug_string(), "InPlaceOnceCell(<untouched>)");

    assert_eq!(
        cell.get_or_try_mutate(u32_square_below_100),
        Err(String::from("too large, now 75"))
    );
    assert_eq!(cell.get(), None);

    assert_eq!(cell.get_or_try_mutate(u32_square_below_100), Ok(&5625));
    assert!(cell.is_mutated());
    assert_eq!(cell.get(), Some(&5625));

    assert_eq!(cell.get_or_try_mutate(u32_square_below_100), Ok(&5625));
    assert_eq!(
        cell.get_or_try_mutate(|_| Err(String::from("never asked"))),
        Ok(&5625)
    );
    assert_eq!(cell.into_inner(), 5625);
}

#[test]
fn cell_into_inner_returns_the_partial_value_after_a_failure() {
    let mut cell = InPlaceOnceCell::new(300u32);
    assert!(cell.get_or_try_mutate(u32_square_below_100).is_err());
    assert_eq!(cell.into_inner(), 150);
}

#[test]
fn cell_get_mut_or_try_mutate() {
    let mut cell = InPlaceOnceCell::new(150u32);
    assert_eq!(
        cell.get_mut_or_try_mutate(u32_square_below_100),
        Err(String::from("too large, now 75"))
    );
    assert_eq!(cell.get_mut(), None);

    match cell.get_mut_or_try_mutate(u32_square_below_100) {
        Ok(value) => {
            assert_eq!(*value, 5625);
            *value = 1;
        }
        Err(e) => panic!("75 is below 100: {e}"),
    }
    assert_eq!(cell.get(), Some(&1));
    assert_eq!(
        cell.get_mut_or_try_mutate(|_| Err(String::from("never asked"))),
        Ok(&mut 1)
    );
}

#[test]
fn cell_into_inner_of_an_untouched_cell() {
    let cell = InPlaceOnceCell::new(vec![1u8, 2, 3]);
    assert_eq!(cell.into_inner(), vec![1, 2, 3]);
}

#[test]
fn cell_default_is_an_untouched_default_value() {
    let mut cell: InPlaceOnceCell<u32> = Default::default();
    assert!(!cell.is_mutated());
    assert_eq!(cell.get(), None);
    assert_eq!(cell.get_or_mutate(u32_increment), &1);

    let text: InPlaceOnceCell<String> = InPlaceOnceCell::default();
    assert_eq!(text.into_inner(), "");
}

#[test]
fn cell_equality_is_over_frozen_values_only() {
    let mut a = InPlaceOnceCell::new(1u32);
    let mut b = InPlaceOnceCell::new(2u32);
    let untouched = InPlaceOnceCell::new(4u32);
    assert!(a == b);
    assert!(a == untouched);

    a.get_or_mutate(|v| *v = 4);
    assert!(a != b);
    assert!(b != a);
    assert!(a != untouched);

    b.get_or_mutate(|v| *v = 5);
    assert!(a != b);

    let mut c = InPlaceOnceCell::new(0u32);
    c.get_or_mutate(|v| *v = 4);
    assert!(a == c);
    assert_eq!(a.get() == c.get(), a == c);
    assert_eq!(a.get() == b.get(), a == b);
}

#[test]
fn cell_size_is_the_value_and_a_padded_latch() {
    assert!(std::mem::size_of::<InPlaceOnceCell<u32>>() <= 8);
    assert!(std::mem::size_of::<InPlaceOnceCell<u8>>() <= 2);
    assert_eq!(
        std::mem::align_of::<InPlaceOnceCell<u32>>(),
        std::mem::align_of::<u32>()
    );
}
