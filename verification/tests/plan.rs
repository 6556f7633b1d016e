use rodman_compose::config::UpArgument;
use rodman_compose::container_compose::{ContainerCompose, Service};

fn service(image: &str) -> Service {
    Service {
        image: image.to_string(),
        ports: Vec::new(),
        volumes: Vec::new(),
        environment: Vec::new(),
        restart: String::new(),
    }
}

fn strings(tokens: &[&str]) -> Vec<String> {
    tokens.iter().map(|t| t.to_string()).collect()
}

fn web_nginx_doc() -> ContainerCompose {
    let mut web = service("nginx");
    web.ports = vec!["80:80".to_string()];
    ContainerCompose::new(
        String::new(),
        vec![("web".to_string(), web)],
        "myapp".to_string(),
    )
}

#[test]
fn pod_mode_single_service() {
    let mut doc = web_nginx_doc();
    let (composer, containers) = doc.up(Vec::new());
    assert_eq!(
        composer,
        strings(&["pod", "create", "--name", "myapp", "-p", "80:80"])
    );
    assert_eq!(
        containers,
        vec![strings(&["run", "--name", "myapp_web", "--pod", "myapp", "nginx"])]
    );
}

#[test]
fn network_detach_single_service() {
    let mut doc = web_nginx_doc();
    let (composer, containers) = doc.up(vec![UpArgument::Detach, UpArgument::Network]);
    assert_eq!(composer, strings(&["network", "create", "myapp_network"]));
    assert_eq!(
        containers,
        vec![strings(&[
            "run",
            "--name",
            "web",
            "--network",
            "myapp_network",
            "-p",
            "80:80",
            "-d",
            "nginx",
        ])]
    );
}

#[test]
fn empty_services_pod_mode() {
    let mut doc = ContainerCompose::new(String::new(), Vec::new(), "myapp".to_string());
    let (composer, containers) = doc.up(Vec::new());
    assert_eq!(composer, strings(&["pod", "create", "--name", "myapp"]));
    assert!(containers.is_empty());
}

#[test]
fn empty_services_network_mode() {
    let mut doc = ContainerCompose::new(String::new(), Vec::new(), "myapp".to_string());
    let (composer, containers) = doc.up(vec![UpArgument::Network]);
    assert_eq!(composer, strings(&["network", "create", "myapp_network"]));
    assert!(containers.is_empty());
}

#[test]
fn one_container_per_service() {
    let doc = ContainerCompose::new(
        String::new(),
        vec![
            ("a".to_string(), service("img_a")),
            ("b".to_string(), service("img_b")),
            ("c".to_string(), service("img_c")),
        ],
        "myapp".to_string(),
    );
    let containers = doc.create_containers();
    assert_eq!(containers.len(), 3);
    assert_eq!(containers[0].last().unwrap(), "img_a");
    assert_eq!(containers[1].last().unwrap(), "img_b");
    assert_eq!(containers[2].last().unwrap(), "img_c");
}

fn loaded_service() -> Service {
    Service {
        image: "redis".to_string(),
        ports: vec!["6379:6379".to_string()],
        volumes: vec!["data:/data".to_string()],
        environment: vec![("MODE".to_string(), "fast".to_string())],
        restart: "always".to_string(),
    }
}

#[test]
fn image_token_is_last_in_all_modes() {
    for flags in [
        Vec::new(),
        vec![UpArgument::Detach],
        vec![UpArgument::Network],
        vec![UpArgument::Detach, UpArgument::Network],
    ] {
        let mut doc = ContainerCompose::new(
            String::new(),
            vec![("cache".to_string(), loaded_service())],
            "myapp".to_string(),
        );
        let (_, containers) = doc.up(flags);
        assert_eq!(containers[0].last().unwrap(), "redis");
    }
}

#[test]
fn detach_adds_single_trailing_flag() {
    let mut plain = web_nginx_doc();
    let (_, without) = plain.up(Vec::new());
    let mut detached = web_nginx_doc();
    let (_, with) = detached.up(vec![UpArgument::Detach]);

    let base = &without[0];
    let got = &with[0];
    assert_eq!(got.len(), base.len() + 1);
    let mut expected = base[..base.len() - 1].to_vec();
    expected.push("-d".to_string());
    expected.push("nginx".to_string());
    assert_eq!(got, &expected);
}

#[test]
fn network_toggle_renames_and_attaches() {
    let mut pod_doc = web_nginx_doc();
    let (_, pod_containers) = pod_doc.up(Vec::new());
    let mut net_doc = web_nginx_doc();
    let (_, net_containers) = net_doc.up(vec![UpArgument::Network]);

    assert_eq!(
        pod_containers[0],
        strings(&["run", "--name", "myapp_web", "--pod", "myapp", "nginx"])
    );
    assert_eq!(
        net_containers[0],
        strings(&[
            "run",
            "--name",
            "web",
            "--network",
            "myapp_network",
            "-p",
            "80:80",
            "nginx",
        ])
    );
}

#[test]
fn minimal_service_invocation() {
    let mut doc = ContainerCompose::new(
        String::new(),
        vec![("db".to_string(), service("postgres"))],
        "myapp".to_string(),
    );
    let (_, containers) = doc.up(Vec::new());
    assert_eq!(
        containers[0],
        strings(&["run", "--name", "myapp_db", "--pod", "myapp", "postgres"])
    );
}

#[test]
fn full_service_token_order() {
    let s = Service {
        image: "redis".to_string(),
        ports: vec!["6379:6379".to_string(), "16379:16379".to_string()],
        volumes: vec!["data:/data".to_string(), "conf:/conf".to_string()],
        environment: vec![
            ("ALPHA".to_string(), "1".to_string()),
            ("BETA".to_string(), "two".to_string()),
        ],
        restart: "always".to_string(),
    };
    let doc = ContainerCompose::new(
        String::new(),
        vec![("cache".to_string(), s)],
        "myapp".to_string(),
    );
    let container = doc.create_container(0);
    assert_eq!(
        container,
        strings(&[
            "run",
            "--volume",
            "data:/data",
            "--volume",
            "conf:/conf",
            "-e",
            "ALPHA=1",
            "-e",
            "BETA=two",
            "--restart",
            "always",
            "--name",
            "myapp_cache",
            "--pod",
            "myapp",
            "redis",
        ])
    );
}

#[test]
fn pod_composer_collects_all_ports() {
    let mut a = service("img_a");
    a.ports = vec!["80:80".to_string(), "443:443".to_string()];
    let mut b = service("img_b");
    b.ports = vec!["9000:9000".to_string()];
    let doc = ContainerCompose::new(
        String::new(),
        vec![("a".to_string(), a), ("b".to_string(), b)],
        "myapp".to_string(),
    );
    let composer = doc.create_pod();
    assert_eq!(
        composer,
        strings(&[
            "pod", "create", "--name", "myapp", "-p", "80:80", "-p", "443:443", "-p", "9000:9000",
        ])
    );
    let network_composer = doc.create_network();
    assert_eq!(network_composer, strings(&["network", "create", "myapp_network"]));
    assert!(!network_composer.contains(&"-p".to_string()));
}
