use saltwater::intern::Interner;
use saltwater::scope::Scope;

#[test]
fn a_new_scope_is_global_and_empty() {
    let mut names = Interner::new();
    let x = names.intern("x");
    let scope: Scope<u32> = Scope::new();
    assert!(scope.is_global());
    assert_eq!(scope.depth(), 1);
    assert_eq!(scope.get(x), None);
    assert_eq!(scope.get_immediate(x), None);
}

#[test]
fn a_name_declared_inside_a_block_is_not_visible_after_the_block_closes() {
    let mut names = Interner::new();
    let x = names.intern("x");
    let y = names.intern("y");
    let mut scope: Scope<u32> = Scope::new();
    scope.insert(y, 1);
    scope.enter();
    assert_eq!(scope.insert(x, 2), None);
    assert_eq!(scope.get(x), Some(&2));
    assert_eq!(scope.get(y), Some(&1));
    assert!(scope.exit());
    assert_eq!(scope.get(x), None);
    assert_eq!(scope.get(y), Some(&1));
    assert!(scope.is_global());
}

#[test]
fn an_inner_declaration_hides_the_outer_until_the_block_closes() {
    let mut names = Interner::new();
    let x = names.intern("x");
    let mut scope: Scope<&str> = Scope::new();
    assert_eq!(scope.insert(x, "global"), None);
    scope.enter();
    assert_eq!(scope.get(x), Some(&"global"));
    assert_eq!(scope.get_immediate(x), None);
    assert_eq!(scope.insert(x, "local"), None);
    assert_eq!(scope.get(x), Some(&"local"));
    assert_eq!(scope.get_immediate(x), Some(&"local"));
    scope.enter();
    assert_eq!(scope.depth(), 3);
    assert_eq!(scope.get(x), Some(&"local"));
    assert_eq!(scope.get_immediate(x), None);
    assert!(scope.exit());
    assert!(scope.exit());
    assert_eq!(scope.get(x), Some(&"global"));
    assert_eq!(scope.get_immediate(x), Some(&"global"));
}

#[test]
fn a_second_declaration_in_one_scope_gives_the_first_back() {
    let mut names = Interner::new();
    let x = names.intern("x");
    let mut scope: Scope<u32> = Scope::new();
    assert_eq!(scope.insert(x, 1), None);
    assert_eq!(scope.insert(x, 2), Some(1));
    assert_eq!(scope.get(x), Some(&2));
    scope.enter();
    assert_eq!(scope.insert(x, 3), None);
    assert_eq!(scope.insert(x, 4), Some(3));
    assert!(scope.exit());
    assert_eq!(scope.get(x), Some(&2));
}

#[test]
fn the_global_scope_stays_open() {
    let mut names = Interner::new();
    let x = names.intern("x");
    let mut scope: Scope<u32> = Scope::new();
    scope.insert(x, 1);
    assert!(!scope.exit());
    assert!(scope.is_global());
    assert_eq!(scope.depth(), 1);
    assert_eq!(scope.get(x), Some(&1));
}

#[test]
fn tags_and_identifiers_do_not_meet() {
    let mut names = Interner::new();
    let s = names.intern("s");
    let mut identifiers: Scope<u32> = Scope::new();
    let mut tags: Scope<u32> = Scope::new();
    identifiers.insert(s, 1);
    assert_eq!(tags.get(s), None);
    tags.insert(s, 2);
    assert_eq!(identifiers.get(s), Some(&1));
    assert_eq!(tags.get(s), Some(&2));
}
