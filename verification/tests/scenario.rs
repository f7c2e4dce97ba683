use benchmark::action::{Action, Reply};
use benchmark::error::{other_error, BenchmarkResult};
use benchmark::flow::Flow;
use benchmark::scenario::{Name, Size, Spec, Vendor};

fn drive<F: Flow>(flow: F, script: Vec<(Action, Reply)>) -> BenchmarkResult<F::Output> {
    let mut flow = flow;
    for (action, reply) in script {
        assert_eq!(flow.action(), Some(action));
        flow = flow.next(reply);
    }
    assert_eq!(flow.action(), None);
    flow.finish()
}

#[test]
fn labels_are_in_lower_case() {
    assert_eq!(Size::Small.to_string(), "small");
    assert_eq!(Size::Medium.to_string(), "medium");
    assert_eq!(Size::Large.to_string(), "large");
    assert_eq!(Name::Users.to_string(), "users");
    assert_eq!(Vendor::Neo4j.to_string(), "neo4j");
    assert_eq!(Vendor::Falkor.to_string(), "falkor");
    assert_eq!(Vendor::Ibex.to_string(), "ibex");
}

#[test]
fn each_size_has_its_data_set() {
    let base = "https://s3.eu-west-1.amazonaws.com/deps.memgraph.io/dataset/pokec/benchmark/";
    for (size, vertices, edges, file) in [
        (Size::Small, 10000, 121716, "pokec_small_import.cypher"),
        (Size::Medium, 100000, 1768515, "pokec_medium_import.cypher"),
        (Size::Large, 1632803, 30622564, "pokec_large.setup.cypher.gz"),
    ] {
        let spec = Spec::new(Name::Users, size, Vendor::Ibex);
        assert_eq!(spec.name, Name::Users);
        assert_eq!(spec.size, size);
        assert_eq!(spec.vendor, Vendor::Ibex);
        assert_eq!(spec.vertices, vertices);
        assert_eq!(spec.edges, edges);
        assert_eq!(spec.data_url, format!("{}{}", base, file));
        assert_eq!(spec.index_url, format!("{}neo4j.cypher", base));
    }
}

#[test]
fn backups_are_kept_apart() {
    let mut seen: Vec<String> = vec![];
    for vendor in [Vendor::Neo4j, Vendor::Falkor, Vendor::Ibex] {
        for size in [Size::Small, Size::Medium, Size::Large] {
            let path = Spec::new(Name::Users, size, vendor).backup_path();
            assert_eq!(
                path,
                format!("./backups/{}/users/{}", vendor.to_string(), size.to_string())
            );
            assert!(!seen.contains(&path));
            seen.push(path);
        }
    }
}

#[test]
fn a_cached_file_is_not_downloaded() {
    let spec = Spec::new(Name::Users, Size::Small, Vendor::Neo4j);
    let file = "./cache/neo4j/users/small/pokec_small_import.cypher".to_string();
    let result = drive(
        spec.init_data_iterator(),
        vec![
            (Action::EnsureDirectory("./cache/neo4j/users/small".to_string()), Reply::Done),
            (Action::FileExists(file.clone()), Reply::Flag(true)),
        ],
    );
    assert_eq!(result, Ok(file));
}

#[test]
fn a_missing_file_is_downloaded() {
    let spec = Spec::new(Name::Users, Size::Medium, Vendor::Falkor);
    let file = "./cache/falkor/users/medium/neo4j.cypher".to_string();
    let dir = "./cache/falkor/users/medium".to_string();
    let download = Action::Download { url: spec.index_url.to_string(), file: file.clone() };
    let result = drive(
        spec.init_index_iterator(),
        vec![
            (Action::EnsureDirectory(dir.clone()), Reply::Done),
            (Action::FileExists(file.clone()), Reply::Flag(false)),
            (download, Reply::Done),
        ],
    );
    assert_eq!(result, Ok(file));
    let result = drive(
        spec.cache("http://x/y"),
        vec![
            (Action::EnsureDirectory(dir.clone()), Reply::Done),
            (Action::FileExists(format!("{}/y", dir)), Reply::Flag(false)),
            (
                Action::Download { url: "http://x/y".to_string(), file: format!("{}/y", dir) },
                Reply::Failed(other_error("no")),
            ),
        ],
    );
    assert_eq!(result, Err(other_error("no")));
    let result = drive(
        spec.cache("z"),
        vec![(Action::EnsureDirectory(dir), Reply::Failed(other_error("no")))],
    );
    assert_eq!(result, Err(other_error("no")));
}

#[test]
fn a_reply_that_answers_nothing_changes_nothing() {
    let spec = Spec::new(Name::Users, Size::Small, Vendor::Neo4j);
    let flow = spec.init_data_iterator();
    let asked = flow.action();
    let flow = flow.next(Reply::Flag(true));
    assert_eq!(flow.action(), asked);
}
