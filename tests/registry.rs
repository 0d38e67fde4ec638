use title_plugin_system::discovery::plan_directory;
use title_plugin_system::registry::PlumbaPluginSystem;
use title_plugin_system::title::PluginInfo;

#[derive(Debug, PartialEq)]
struct Lib(&'static str);

#[derive(Debug, PartialEq)]
struct Counter {
    mirror: String,
    hits: u32,
}

fn counter() -> Counter {
    Counter { mirror: "base".to_string(), hits: 0 }
}

#[test]
fn run_plugin() {
    let mut plumba_system: PlumbaPluginSystem<Lib, Counter> = PlumbaPluginSystem::default();
    let l = Some(vec![Some("shiki_plugin.so".to_string()), Some("notes.md".to_string())]);
    let plan = plan_directory(&l).expect("Error when loaded");
    let opened: Vec<Result<(Lib, Counter), String>> =
        plan.iter().map(|_| Ok((Lib("shiki"), counter()))).collect();
    let failures = plumba_system.load_all(opened);
    assert!(failures.is_empty());
    assert_eq!(plumba_system.len(), 1);
}

#[test]
fn load_success_appends_failure_leaves_unchanged() {
    let mut s: PlumbaPluginSystem<Lib, Counter> = PlumbaPluginSystem::new();
    assert_eq!(s.load::<String>(Ok((Lib("a"), counter()))), Ok(()));
    assert_eq!(s.len(), 1);
    assert_eq!(s.load::<String>(Err("missing".to_string())), Err("missing".to_string()));
    assert_eq!(s.len(), 1);
}

#[test]
fn load_all_keeps_order_and_skips_failures() {
    let mut s: PlumbaPluginSystem<Lib, u32> = PlumbaPluginSystem::new();
    let opened: Vec<Result<(Lib, u32), &str>> =
        vec![Ok((Lib("a"), 1)), Err("no symbol"), Ok((Lib("c"), 3)), Err("no file")];
    let failures = s.load_all(opened);
    assert_eq!(failures, vec!["no symbol", "no file"]);
    assert_eq!(s.len(), 2);
    assert_eq!(*s.get_plugin(0), 1);
    assert_eq!(*s.get_plugin(1), 3);
    let all: Vec<u32> = s.iter().into_iter().copied().collect();
    assert_eq!(all, vec![1, 3]);
}

#[test]
fn get_out_of_range_is_none() {
    let mut s: PlumbaPluginSystem<Lib, u32> = PlumbaPluginSystem::new();
    assert_eq!(s.get(0), None);
    let _ = s.load::<()>(Ok((Lib("a"), 7)));
    assert_eq!(s.get(0), Some(&7));
    assert_eq!(s.get(1), None);
    assert!(s.get_mut(1).is_none());
    assert!(s.get_mut(usize::MAX).is_none());
}

#[test]
fn two_loads_are_independent() {
    let mut s: PlumbaPluginSystem<Lib, Counter> = PlumbaPluginSystem::new();
    let _ = s.load::<()>(Ok((Lib("one.so"), counter())));
    let _ = s.load::<()>(Ok((Lib("two.so"), counter())));
    {
        let first = s.get_mut_plugin(0);
        first.mirror = "mirror".to_string();
        first.hits += 1;
    }
    assert_eq!(s.get_plugin(0), &Counter { mirror: "mirror".to_string(), hits: 1 });
    assert_eq!(s.get_plugin(1), &counter());
    if let Some(second) = s.get_mut(1) {
        second.hits = 5;
    }
    assert_eq!(s.get_plugin(0).hits, 1);
    assert_eq!(s.get_plugin(1).hits, 5);
}

#[test]
fn iter_does_not_see_later_loads() {
    let mut s: PlumbaPluginSystem<Lib, u32> = PlumbaPluginSystem::new();
    let _ = s.load::<()>(Ok((Lib("a"), 1)));
    let snapshot: Vec<u32> = s.iter().into_iter().copied().collect();
    let _ = s.load::<()>(Ok((Lib("b"), 2)));
    assert_eq!(snapshot, vec![1]);
    assert_eq!(s.iter().len(), 2);
}

#[test]
fn scenario_plugin_and_readme() {
    let info = PluginInfo {
        name: "Foo plugin".to_string(),
        version: "1.0.0".to_string(),
        description: "a test plugin".to_string(),
        icon_data: &[1, 2, 3],
    };
    let mut s: PlumbaPluginSystem<Lib, PluginInfo> = PlumbaPluginSystem::new();
    let l = Some(vec![Some("foo_plugin.so".to_string()), Some("readme.txt".to_string())]);
    let plan = plan_directory(&l).unwrap();
    let opened: Vec<Result<(Lib, PluginInfo), String>> =
        plan.iter().map(|_| Ok((Lib("foo_plugin.so"), info.clone()))).collect();
    assert!(s.load_all(opened).is_empty());
    assert_eq!(s.len(), 1);
    assert_eq!(s.get(0).map(|p| p.name.as_str()), Some("Foo plugin"));
}
