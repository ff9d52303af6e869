use rspack_parser_plugins::hook::{BailTap, HookError, HookMap, SyncBailHook, SyncHook, SyncTap};

struct Push(u8);

impl SyncTap<Vec<u8>, ()> for Push {
    fn run(&self, values: &mut Vec<u8>, _args: &()) -> Result<(), HookError> {
        values.push(self.0);
        Ok(())
    }
}

struct MaybeStop {
    value: u8,
    stop: bool,
}

impl BailTap<Vec<u8>, (), u8> for MaybeStop {
    fn run(&self, values: &mut Vec<u8>, _args: &()) -> Result<Option<u8>, HookError> {
        values.push(self.value);
        Ok(if self.stop { Some(self.value) } else { None })
    }
}

#[test]
fn parser_sync_hook_runs_in_registration_order() {
    let mut hook = SyncHook::<Push>::default();
    let mut values = Vec::new();

    hook.tap(Push(1));
    hook.tap(Push(2));
    hook.tap(Push(3));

    hook.call(&mut values, &()).unwrap();

    assert_eq!(values, vec![1, 2, 3]);
}

#[test]
fn parser_sync_bail_hook_stops_at_first_hit() {
    let mut hook = SyncBailHook::<MaybeStop>::default();
    let mut values = Vec::new();

    hook.tap(MaybeStop { value: 1, stop: false });
    hook.tap(MaybeStop { value: 2, stop: true });
    hook.tap(MaybeStop { value: 3, stop: false });

    assert_eq!(hook.call(&mut values, &()).unwrap(), Some(2));
    assert_eq!(values, vec![1, 2]);
}

#[test]
fn parser_hook_map_executes_only_matching_key() {
    let mut map = HookMap::<SyncBailHook<MaybeStop>>::default();
    let mut alpha = Vec::new();
    let mut beta = Vec::new();

    map.for_key("alpha").tap(MaybeStop { value: 1, stop: true });
    map.for_key("beta").tap(MaybeStop { value: 2, stop: true });

    assert_eq!(map.get("alpha").unwrap().call(&mut alpha, &()).unwrap(), Some(1));
    assert_eq!(alpha, vec![1]);
    assert_eq!(map.get("beta").unwrap().call(&mut beta, &()).unwrap(), Some(2));
    assert_eq!(beta, vec![2]);
    assert!(map.get("gamma").is_none());
}

#[test]
fn parser_hook_map_is_lazy() {
    let mut map = HookMap::<Vec<u8>>::default();
    assert_eq!(map.len(), 0);
    assert!(map.get("a").is_none());

    map.for_key("a").push(1);

    assert_eq!(map.len(), 1);
    assert_eq!(map.get("a"), Some(&vec![1]));
}

#[test]
fn parser_hook_map_supports_borrowed_lookup() {
    let mut map = HookMap::<Vec<u8>>::default();
    let key = String::from("alpha");

    map.for_key(&key).extend([1, 2]);

    assert_eq!(map.get("alpha"), Some(&vec![1, 2]));
    assert!(map.get("beta").is_none());
}
