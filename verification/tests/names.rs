//! Names, locations and lists.
use leo_passes::ast::{Location, Symbol};
use leo_passes::list::List;
use leo_passes::names::{decimal_text, Names};
use leo_passes::state::{CompilerState, SymbolTable};

fn text(names: &Names, symbol: Symbol) -> String {
    names.text(symbol).into_iter().collect()
}

#[test]
fn a_text_is_interned_once() {
    let mut names = Names::new();
    let a = names.intern("a");
    let b = names.intern("b");
    assert_eq!(names.intern("a"), a);
    assert_ne!(a, b);
    assert_eq!(text(&names, b), "b");
    assert!(names.is(a, "a"));
    assert!(!names.is(a, "ab"));
}

#[test]
fn a_leading_underscore_is_told() {
    let mut names = Names::new();
    let plain = names.intern("x_");
    let marked = names.intern("_x");
    let empty = names.intern("");
    assert!(names.name_starts_with_underscore(marked));
    assert!(!names.name_starts_with_underscore(plain));
    assert!(!names.name_starts_with_underscore(empty));
    assert!(!names.name_starts_with_underscore(Symbol { index: 99 }));
}

#[test]
fn numbers_are_written_in_decimal() {
    let shown = |value: u64| decimal_text(value).into_iter().collect::<String>();
    assert_eq!(shown(0), "0");
    assert_eq!(shown(907), "907");
    assert_eq!(shown(u64::MAX), "18446744073709551615");
}

#[test]
fn generated_names_differ() {
    let mut state = CompilerState::new(SymbolTable {
        globals: List::Nil,
        structs: List::Nil,
        interfaces: List::Nil,
    });
    let first = state.unique_symbol("$t", "$");
    let second = state.unique_symbol("$t", "$");
    assert_eq!(text(&state.names, first), "$t$0");
    assert_eq!(text(&state.names, second), "$t$1");
    let suffixed = state.suffixed_symbol(first, "__len__");
    assert_eq!(text(&state.names, suffixed), "$t$0__len__");
}

#[test]
fn locations_have_keys_of_their_own() {
    let location = |program: usize, path: Vec<usize>| Location {
        program: Symbol { index: program },
        path: List::from_vec(path.into_iter().map(|index| Symbol { index }).collect()),
    };
    let first = location(1, vec![2, 3]);
    assert_eq!(first.key(), vec![1, 2, 3]);
    assert!(first.same(&location(1, vec![2, 3])));
    assert!(!first.same(&location(1, vec![2])));
    assert!(!first.same(&location(2, vec![2, 3])));
}

#[test]
fn lists_keep_their_order() {
    let list = List::from_vec(vec![Symbol { index: 1 }, Symbol { index: 2 }, Symbol { index: 3 }]);
    assert_eq!(list.len(), 3);
    assert_eq!(list.take(2).append(&list.skip(2)), list);
    assert_eq!(list.skip(5), List::Nil);
    assert_eq!(list.push(Symbol { index: 4 }).to_vec().last(), Some(&Symbol { index: 4 }));
}
