use gpu_readback::bindings::{bindings_for_shader, bindings_from_reflection, BindingTable, ReflectionEntry, ReflectionParam};
use gpu_readback::channel::{check_bridge, delivery_of, signal_completion, signal_of};
use gpu_readback::cycle::Signal;
use gpu_readback::channel::Delivery;
use gpu_readback::dispatch::{layout_entries, plan_pass, Dispatch, LayoutEntry, PassPlan, OUTPUT_BYTES};

fn param(name: Option<&str>, binding: Option<u64>) -> ReflectionParam {
    ReflectionParam { name: name.map(|s| s.to_string()), binding }
}

fn entry(shader: Option<&str>, params: Option<Vec<ReflectionParam>>) -> ReflectionEntry {
    ReflectionEntry { shader_name: shader.map(|s| s.to_string()), parameters: params }
}

fn s(x: &str) -> String {
    x.to_string()
}

#[test]
fn resolves_only_the_named_shader() {
    let entries = vec![
        entry(Some("other"), Some(vec![param(Some("outputBuffer"), Some(9))])),
        entry(Some("simple_compute"), Some(vec![param(Some("outputBuffer"), Some(0)), param(Some("params"), Some(2))])),
        entry(None, Some(vec![param(Some("x"), Some(1))])),
        entry(Some("simple_compute"), None),
    ];
    let t = bindings_for_shader(&entries, &s("simple_compute"));
    assert_eq!(t.len(), 2);
    assert_eq!(t.get(&s("outputBuffer")), Some(0));
    assert_eq!(t.get(&s("params")), Some(2));
    assert_eq!(t.get(&s("x")), None);
    assert_eq!(t.slots(), vec![0, 2]);
}

#[test]
fn later_binding_replaces_earlier() {
    let entries = vec![
        entry(Some("a"), Some(vec![param(Some("buf"), Some(1)), param(Some("tex"), Some(3))])),
        entry(Some("a"), Some(vec![param(Some("buf"), Some(5))])),
    ];
    let t = bindings_for_shader(&entries, &s("a"));
    assert_eq!(t.len(), 2);
    assert_eq!(t.get(&s("buf")), Some(5));
    assert_eq!(t.slots(), vec![5, 3]);
}

#[test]
fn incomplete_params_are_skipped_and_slots_cut_to_32_bits() {
    let entries = vec![entry(
        Some("a"),
        Some(vec![param(None, Some(1)), param(Some("n"), None), param(Some("big"), Some((1u64 << 32) + 7))]),
    )];
    let t = bindings_for_shader(&entries, &s("a"));
    assert_eq!(t.len(), 1);
    assert_eq!(t.get(&s("big")), Some(7));
}

#[test]
fn empty_reflection_gives_empty_table() {
    let t = bindings_for_shader(&vec![], &s("a"));
    assert_eq!(t.len(), 0);
    assert_eq!(t.slots(), Vec::<u32>::new());
}

#[test]
fn table_insert_and_get() {
    let mut t = BindingTable::new();
    t.insert(s("a"), 1);
    t.insert(s("b"), 2);
    t.insert(s("a"), 4);
    assert_eq!(t.len(), 2);
    assert_eq!(t.get(&s("a")), Some(4));
    assert_eq!(t.get(&s("c")), None);
}

#[test]
fn layout_has_one_entry_per_binding() {
    let mut t = BindingTable::new();
    t.insert(s("outputBuffer"), 0);
    t.insert(s("params"), 3);
    assert_eq!(
        layout_entries(&t),
        vec![
            LayoutEntry { binding: 0, min_binding_size: 24 },
            LayoutEntry { binding: 3, min_binding_size: 24 }
        ]
    );
    assert_eq!(OUTPUT_BYTES, 24);
}

#[test]
fn pass_plans() {
    let mut t = BindingTable::new();
    assert_eq!(plan_pass(false, true, true, &t), None);
    assert_eq!(plan_pass(true, true, false, &t), Some(PassPlan { dispatch: None, unresolved: false, copy_bytes: 24 }));
    assert_eq!(plan_pass(true, true, true, &t), Some(PassPlan { dispatch: None, unresolved: true, copy_bytes: 24 }));
    t.insert(s("outputBuffer"), 4);
    assert_eq!(
        plan_pass(true, true, true, &t),
        Some(PassPlan { dispatch: Some(Dispatch { slot: 4, workgroups: 6 }), unresolved: false, copy_bytes: 24 })
    );
}

#[test]
fn missing_buffers_skip_the_pass() {
    let mut t = BindingTable::new();
    t.insert(s("outputBuffer"), 0);
    assert_eq!(plan_pass(true, false, true, &t), None);
    assert_eq!(plan_pass(true, false, false, &t), None);
    assert_eq!(plan_pass(false, false, true, &t), None);
}

#[test]
fn bridge_signals() {
    assert_eq!(signal_of(None), Signal::Waiting);
    assert_eq!(signal_of(Some(true)), Signal::Mapped);
    assert_eq!(signal_of(Some(false)), Signal::Failed);
    let (tx, rx) = crossbeam_channel::unbounded::<bool>();
    assert_eq!(check_bridge(&rx), Signal::Waiting);
    signal_completion(&tx, false);
    assert_eq!(check_bridge(&rx), Signal::Failed);
    signal_completion(&tx, true);
    assert_eq!(check_bridge(&rx), Signal::Mapped);
    drop(rx);
    signal_completion(&tx, true);
}

#[test]
fn delivery_outcomes() {
    assert_eq!(delivery_of(Ok(())), Delivery::Sent);
    assert_eq!(delivery_of(Err(vec![1])), Delivery::Unreceived);
}

#[test]
fn missing_reflection_gives_empty_table() {
    let t = bindings_from_reflection(None, &s("simple_compute"));
    assert_eq!(t.len(), 0);
    let entries = vec![entry(Some("simple_compute"), Some(vec![param(Some("outputBuffer"), Some(1))]))];
    let t2 = bindings_from_reflection(Some(entries), &s("simple_compute"));
    assert_eq!(t2.get(&s("outputBuffer")), Some(1));
}
