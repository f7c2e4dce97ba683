use benchmark::action::{Action, Reply};
use benchmark::error::{other_error, BenchmarkResult};
use benchmark::falkor::Falkor;
use benchmark::flow::Flow;
use benchmark::ibex::Ibex;
use benchmark::query::ProcessOutput;
use benchmark::scenario::Size;
use std::collections::HashMap;

type Disk = HashMap<String, String>;

fn ran() -> Reply {
    Reply::Process(ProcessOutput { success: true, code: Some(0), stdout: vec![], stderr: vec![] })
}

fn perform(disk: &mut Disk, action: Action) -> Reply {
    match action {
        Action::EnvIsSet(_) => Reply::Flag(false),
        Action::FindProcess(_) => Reply::Failed(other_error("none")),
        Action::FileExists(path) => Reply::Flag(disk.contains_key(&path)),
        Action::CopyFile { from, to } => match disk.get(&from).cloned() {
            Some(content) => {
                disk.insert(to, content);
                Reply::Done
            }
            None => Reply::Failed(other_error("no such file")),
        },
        Action::SpawnCommand { command, args } if command == "rm" => {
            disk.remove(&args[1]);
            ran()
        }
        Action::SpawnCommand { args, .. } => match disk.get(&args[1]).cloned() {
            Some(content) => {
                let copied = match disk.get(&args[2]) {
                    Some(outer) => format!("{} with {}", outer, content),
                    None => content,
                };
                disk.insert(args[2].clone(), copied);
                ran()
            }
            None => Reply::Failed(other_error("no such file")),
        },
        other => panic!("{:?}", other),
    }
}

fn drive<F: Flow>(disk: &mut Disk, flow: F) -> BenchmarkResult<F::Output> {
    let mut flow = flow;
    while let Some(action) = flow.action() {
        flow = flow.next(perform(disk, action));
    }
    flow.finish()
}

#[test]
fn restored_falkor_data_is_what_was_saved() {
    let data = "./redis-data/dump.rdb".to_string();
    let falkor = Falkor::new(Some("/w"), None);
    let mut disk: Disk = HashMap::from([(data.clone(), "first".to_string())]);
    assert_eq!(drive(&mut disk, falkor.save_db(Size::Small)), Ok(()));
    disk.insert(data.clone(), "second".to_string());
    assert_eq!(drive(&mut disk, falkor.save_db(Size::Large)), Ok(()));
    disk.remove(&data);
    assert_eq!(drive(&mut disk, falkor.restore_db(Size::Small)), Ok(()));
    assert_eq!(disk[&data], "first");
    assert_eq!(drive(&mut disk, falkor.restore_db(Size::Large)), Ok(()));
    assert_eq!(disk[&data], "second");
    assert_eq!(drive(&mut disk, falkor.restore_db(Size::Medium)), Ok(()));
    assert_eq!(disk[&data], "second");
    assert_eq!(drive(&mut disk, falkor.dump_exists_or_error(Size::Small)), Ok(()));
    assert!(drive(&mut disk, falkor.dump_exists_or_error(Size::Medium)).is_err());
}

#[test]
fn restored_ibex_data_is_what_was_saved() {
    let data = "./ibex-data/db".to_string();
    let ibex = Ibex::new();
    let mut disk: Disk = HashMap::from([(data.clone(), "first".to_string())]);
    assert_eq!(drive(&mut disk, ibex.save_db(Size::Small)), Ok(()));
    disk.insert(data.clone(), "second".to_string());
    assert_eq!(drive(&mut disk, ibex.save_db(Size::Small)), Ok(()));
    disk.insert(data.clone(), "third".to_string());
    assert_eq!(drive(&mut disk, ibex.restore_db(Size::Small)), Ok(()));
    assert_eq!(disk[&data], "second");
    assert_eq!(drive(&mut disk, ibex.restore_db(Size::Large)), Ok(()));
    assert!(!disk.contains_key(&data));
    assert!(drive(&mut disk, ibex.dump_exists_or_error(Size::Large)).is_err());
}

#[test]
fn only_what_is_there_can_be_saved() {
    let mut disk: Disk = HashMap::new();
    let falkor = Falkor::new(Some("/w"), None);
    assert_eq!(drive(&mut disk, falkor.save_db(Size::Small)), Err(other_error("no such file")));
    let ibex = Ibex::new();
    assert_eq!(drive(&mut disk, ibex.save_db(Size::Small)), Err(other_error("no such file")));
    assert_eq!(drive(&mut disk, ibex.restore_db(Size::Small)), Ok(()));
    assert!(disk.is_empty());
}
