use aex::mem::Name;
use aex::scope::{Scope, ScopeMap};
use aex::util::bob::Bob;
use aex::util::Lookup;

const T: Name = Name(7);

#[test]
fn new() {
    let parent: Scope<u8, u32> = Scope::new();
    let child = Scope::with_parent(&parent);
    assert_eq!(child.types.lookup(T), None);
    assert_eq!(child.symbols.lookup(T), None);
}

#[test]
fn empty() {
    let map = ScopeMap::<u32>::new(None);
    assert_eq!(map.lookup(T), None);
    assert_eq!(map.lookup(T), None);
}

#[test]
fn defined_own() {
    let mut map = ScopeMap::new(None);
    assert!(map.define(T, 32u32).is_ok());
    assert_eq!(map.lookup(T), Some(&32));
}

#[test]
fn defined_ref() {
    let u32_ty = 32u32;
    let mut map = ScopeMap::new(None);
    assert!(map.define_ref(T, &u32_ty).is_ok());
    assert_eq!(map.lookup(T), Some(&32));
}

#[test]
fn inherited() {
    let u32_ty = 32u32;
    let mut parent = ScopeMap::new(None);
    assert!(parent.define_ref(T, &u32_ty).is_ok());
    let map = ScopeMap::new(Some(&parent));
    assert_eq!(map.lookup(T), Some(&32));
    assert_eq!(Lookup::lookup(&map, &T), Some(&32));
}

#[test]
fn overridden() {
    let (u16_ty, u32_ty) = (16u32, 32u32);
    let mut parent = ScopeMap::new(None);
    assert!(parent.define_ref(T, &u16_ty).is_ok());
    let mut map = ScopeMap::new(Some(&parent));
    assert!(map.define_ref(T, &u32_ty).is_ok());
    assert_eq!(map.lookup(T), Some(&32));
    assert_eq!(parent.lookup(T), Some(&16));
}

#[test]
fn duplicate() {
    let (u16_ty, u32_ty) = (16u32, 32u32);
    let mut map = ScopeMap::new(None);
    assert!(map.define_ref(T, &u16_ty).is_ok());
    match map.define_ref(T, &u32_ty) {
        Err(Bob::Borrowed(old)) => assert_eq!(*old, 16),
        _ => panic!(),
    }
    assert_eq!(map.lookup(T), Some(&32));
}
