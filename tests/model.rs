use doggy::components::images::Images;
use doggy::components::networks::{self, Networks};
use doggy::components::volumes::Volumes;
use doggy::components::{Component, Reply};
use doggy::action::Action;
use doggy::editor::LineEditor;
use doggy::runtime::cri;
use doggy::runtime::docker::{self, parse_name, parse_processes, validate_container_filters};
use doggy::runtime::model::{
    get_label, ContainerDetails, ContainerHealth, ContainerStatus, Filter, ImageSummary, NetworkSummary, VolumeSummary,
};
use doggy::runtime::{get_suggestions, ConnectionConfig, Resource};
use doggy::text::{compare_text, decimal_text};
use doggy::utils::{age_label, image_cells};
use std::cmp::Ordering;

#[test]
fn filter_text_and_title_suffix() {
    let f = Filter::new();
    assert_eq!(f.format(), "");
    let f = f.compose_project("shop".to_string()).name("web".to_string());
    assert_eq!(f.to_text(), "label=com.docker.compose.project=shop&name=web");
    assert_eq!(f.format(), " - Filters: label=com.docker.compose.project=shop&name=web");
    let f = f.name("db".to_string());
    assert_eq!(f.len(), 2);
    assert_eq!(f.to_text(), "label=com.docker.compose.project=shop&name=db");
}

#[test]
fn filter_from_user_text() {
    assert_eq!(Filter::from_text("status=exited").to_text(), "status=exited");
    assert_eq!(Filter::from_text("web=").to_text(), "name=web");
    assert!(Filter::from_text("web").is_empty());
    assert_eq!(Filter::from_text("label=a=b").to_text(), "label=a=b");
    assert!(Filter::from_option(None).is_empty());
    assert_eq!(Filter::new().compose().to_text(), "label=com.docker.compose.project");
    assert_eq!(Filter::new().image("nginx".to_string()).to_text(), "ancestor=nginx");
}

#[test]
fn container_filter_validation() {
    assert!(validate_container_filters("status=running"));
    assert!(validate_container_filters("web"));
    assert!(!validate_container_filters("color=red"));
    assert!(validate_container_filters("is-task=true"));
}

#[test]
fn status_names_round_trip() {
    for s in ["created", "running", "paused", "restarting", "removing", "exited", "dead"] {
        assert_eq!(ContainerStatus::from_state(s).label(), s);
    }
    assert_eq!(ContainerStatus::from_state("weird"), ContainerStatus::Unknown);
    let healthy = ContainerStatus::from_state("running").with_health(ContainerHealth::Healthy);
    assert_eq!(healthy.label(), "running (healthy)");
    assert_eq!(ContainerStatus::Exited.with_health(ContainerHealth::Healthy), ContainerStatus::Exited);
    assert_eq!(cri::container_status(1), ContainerStatus::Running(ContainerHealth::Unknown));
    assert_eq!(cri::container_status(7), ContainerStatus::Unknown);
}

#[test]
fn endpoints_are_described() {
    assert_eq!(docker::ConnectionConfig::default_socket().describe(), "unix:///var/run/docker.sock");
    assert_eq!(docker::ConnectionConfig::socket("/tmp/d.sock".to_string()).describe(), "unix:///tmp/d.sock");
    assert_eq!(docker::ConnectionConfig::http("tcp://h:2375".to_string()).describe(), "tcp://h:2375");
    assert_eq!(docker::ConnectionConfig::ssl("tcp://h:2376".to_string(), "/c".to_string()).describe(), "tcp://h:2376");
    assert_eq!(ConnectionConfig::Cri(cri::ConnectionConfig::default_socket()).describe(), "unix:///run/containerd/containerd.sock");
}

#[test]
fn endpoint_detection() {
    assert!(matches!(docker::detect_connection_config(Some("h".to_string()), Some("c".to_string()), false),
        Some(docker::ConnectionConfig::Ssl(h, c)) if h == "h" && c == "c"));
    assert!(matches!(docker::detect_connection_config(Some("h".to_string()), None, true),
        Some(docker::ConnectionConfig::Http(h)) if h == "h"));
    assert!(matches!(docker::detect_connection_config(None, None, true), Some(docker::ConnectionConfig::Socket(None))));
    assert!(docker::detect_connection_config(None, None, false).is_none());
    assert!(cri::detect_connection_config(false).is_none());
}

#[test]
fn suggestions_depend_on_backend() {
    let d = get_suggestions(&ConnectionConfig::Docker(docker::ConnectionConfig::default_socket()));
    assert_eq!(d.len(), 5);
    let c = get_suggestions(&ConnectionConfig::Cri(cri::ConnectionConfig::default_socket()));
    assert_eq!(c, vec![Resource::Containers, Resource::Images]);
}

#[test]
fn names_and_processes_are_parsed() {
    assert_eq!(parse_name(Some("/web".to_string())), "web");
    assert_eq!(parse_name(Some("a/b/c".to_string())), "c");
    assert_eq!(parse_name(Some("plain".to_string())), "plain");
    assert_eq!(parse_name(None), "<UNKNOWN>");
    let row: Vec<String> = (0..11).map(|i| format!("f{}", i)).collect();
    let short = vec!["root".to_string()];
    let ps = parse_processes(Some(vec![row, short]));
    assert_eq!(ps[0], ("f0".to_string(), "f1".to_string(), "f10".to_string()));
    assert_eq!(ps[1], ("root".to_string(), String::new(), String::new()));
    assert!(parse_processes(None).is_empty());
}

#[test]
fn compose_labels_are_extracted() {
    let labels = vec![
        ("com.docker.compose.service".to_string(), "web".to_string()),
        ("com.docker.compose.container-number".to_string(), "1".to_string()),
        ("com.docker.compose.project.working_dir".to_string(), "/srv".to_string()),
    ];
    assert_eq!(docker::extract_compose_service_info(&labels), Some(("web".to_string(), "1".to_string())));
    assert_eq!(docker::extract_compose_info(&labels), (None, Some("/srv".to_string()), None));
    assert_eq!(docker::extract_compose_volume_info(&labels), None);
    assert_eq!(get_label(&labels, "com.docker.compose.service"), Some("web".to_string()));
}

#[test]
fn ages_are_rounded_down_to_their_unit() {
    assert_eq!(age_label(100, 130), "30s");
    assert_eq!(age_label(0, 59), "59s");
    assert_eq!(age_label(0, 60), "1m");
    assert_eq!(age_label(0, 3599), "59m");
    assert_eq!(age_label(0, 7200), "2h");
    assert_eq!(age_label(0, 86400 * 3 + 5), "3d");
    assert_eq!(age_label(10, 5), "-5s");
    assert_eq!(decimal_text(-1203), "-1203");
}

#[test]
fn image_cells_format_size_and_age() {
    let i = ImageSummary { id: "abc".to_string(), name: "nginx".to_string(), size: 1024, created: 0 };
    let cells = image_cells(&i, 120);
    assert_eq!(cells, vec!["abc".to_string(), "nginx".to_string(), "1 KiB".to_string(), "2m".to_string()]);
}

#[test]
fn text_order_is_by_code_point() {
    assert_eq!(compare_text("abc", "abd"), Ordering::Less);
    assert_eq!(compare_text("ab", "abc"), Ordering::Less);
    assert_eq!(compare_text("b", "abc"), Ordering::Greater);
    assert_eq!(compare_text("é", "é"), Ordering::Equal);
}

#[test]
fn line_editor_keeps_cursor_in_buffer() {
    let mut e = LineEditor::new();
    e.delete_char();
    e.move_cursor_left();
    assert_eq!(e.cursor(), 0);
    for c in "héllo".chars() {
        e.enter_char(c);
    }
    e.move_cursor_right();
    assert_eq!(e.cursor(), 5);
    e.move_cursor_left();
    e.move_cursor_left();
    e.delete_char();
    assert_eq!(e.text().iter().collect::<String>(), "hélo");
    assert_eq!(e.cursor(), 2);
    e.enter_char('X');
    assert_eq!(e.text().iter().collect::<String>(), "héXlo");
    e.reset();
    assert!(e.is_empty());
}

#[test]
fn image_screen_lists_inspects_and_deletes() {
    let mut s = Images::new();
    let list = vec![
        ImageSummary { id: "b".to_string(), name: "redis".to_string(), size: 1, created: 20 },
        ImageSummary { id: "a".to_string(), name: "nginx".to_string(), size: 2, created: 10 },
    ];
    s.update(Action::Tick, Some(Reply::Images(Ok(list))));
    assert_eq!(s.images[0].id, "a");
    let out = s.update(Action::Inspect, Some(Reply::Text(Err("gone".to_string()))));
    assert!(matches!(&out.actions[0], Action::Error(m) if m == "Unable to get image \"nginx\" details:\ngone"));
    let out = s.update(Action::Inspect, Some(Reply::Text(Ok("{}".to_string()))));
    assert!(matches!(&out.actions[0], Action::Screen(Component::ImageInspect(i)) if i.id == "a" && i.details == "{}"));
    s.update(Action::Delete, None);
    let out = s.update(Action::Confirm, Some(Reply::Done(Ok(()))));
    assert!(matches!(out.actions[0], Action::Tick));
    let k = doggy::tui::Key { code: doggy::tui::KeyCode::Char('c'), ctrl: false, press: true };
    match s.get_action(&k) {
        Some(Action::Screen(Component::Containers(c))) => assert_eq!(c.filter.to_text(), "ancestor=a"),
        _ => panic!("expected the container list"),
    }
}

#[test]
fn network_screen_sorts_and_keeps_prompt_on_failure() {
    let mut s = Networks::new(Filter::new());
    let n = |id: &str, name: &str| NetworkSummary {
        id: id.to_string(), name: name.to_string(), driver: "bridge".to_string(), created: 0, labels: Vec::new(),
    };
    s.update(Action::Tick, Some(Reply::Networks(Ok(vec![n("1", "b"), n("2", "a")]))));
    assert_eq!(s.networks[0].name, "a");
    s.update(Action::SortColumn(2), None);
    assert_eq!(s.sort_by, networks::SortColumn::Name(networks::SortOrder::Desc));
    s.update(Action::Delete, None);
    let out = s.update(Action::Confirm, Some(Reply::Done(Err("in use".to_string()))));
    assert!(matches!(s.show_popup, networks::Popup::Delete(..)));
    assert!(matches!(&out.actions[0], Action::Error(m) if m == "Unable to delete network \"2\":\nin use"));
}

#[test]
fn volume_screen_takes_filter_text() {
    let mut s = Volumes::new(Filter::new());
    s.update(Action::SetFilter(Some("driver=local".to_string())), None);
    assert_eq!(s.filter.to_text(), "driver=local");
    s.update(Action::SetFilter(None), None);
    assert!(s.filter.is_empty());
}

#[test]
fn inspect_lists_are_parsed_and_ordered() {
    let env = docker::parse_env(Some(vec!["PATH=/bin".to_string(), "A=b=c".to_string(), "FLAG".to_string()]));
    assert_eq!(
        env,
        vec![
            ("A".to_string(), "b".to_string()),
            ("FLAG".to_string(), String::new()),
            ("PATH".to_string(), "/bin".to_string()),
        ]
    );
    let ports = docker::parse_ports(Some(vec!["80/tcp".to_string(), "443/tcp".to_string()]));
    assert_eq!(ports[0].0, "443/tcp");
    let mounts = docker::parse_mounts(Some(vec![(Some("/b".to_string()), None), (Some("/a".to_string()), Some("/x".to_string()))]));
    assert_eq!(mounts, vec![("/a".to_string(), "/x".to_string()), ("/b".to_string(), String::new())]);
    let nets = docker::parse_networks(Some(vec![("n".to_string(), Some("10.0.0.2".to_string())), ("m".to_string(), None)]));
    assert_eq!(nets[0].0, "m");
    assert!(docker::parse_env(None).is_empty());
}

#[test]
fn compose_projects_are_grouped_by_label() {
    let labels = |p: &str, extra: &[(&str, &str)]| {
        let mut l = vec![("com.docker.compose.project".to_string(), p.to_string())];
        l.extend(extra.iter().map(|(k, v)| (k.to_string(), v.to_string())));
        l
    };
    let details = |id: &str, l: Vec<(String, String)>| ContainerDetails {
        id: id.to_string(),
        name: id.to_string(),
        image: None,
        image_id: None,
        labels: l,
        status: ContainerStatus::Exited,
        age: None,
        ports: Vec::new(),
        volumes: Vec::new(),
        env: Vec::new(),
        entrypoint: None,
        command: None,
        network: Vec::new(),
        processes: Vec::new(),
    };
    let svc = [("com.docker.compose.service", "web"), ("com.docker.compose.container-number", "1")];
    let containers = vec![details("c1", labels("shop", &svc)), details("c2", labels("blog", &svc)), details("c3", labels("shop", &svc))];
    let volumes = vec![VolumeSummary {
        id: "v".to_string(),
        driver: "local".to_string(),
        created: 0,
        labels: labels("blog", &[("com.docker.compose.volume", "data")]),
    }];
    let projects = docker::group_compose_projects(containers, volumes, Vec::new());
    assert_eq!(projects.len(), 2);
    let shop = projects.iter().find(|p| p.project == "shop").unwrap();
    assert_eq!(shop.services.len(), 1);
    assert_eq!(shop.services[0].1.id, "c3");
    let blog = projects.iter().find(|p| p.project == "blog").unwrap();
    assert_eq!(blog.volumes.len(), 1);
    assert_eq!(blog.volumes[0].0, "data");
}

#[test]
fn image_name_filter_keeps_matches_in_order() {
    let img = |id: &str, name: &str| ImageSummary { id: id.to_string(), name: name.to_string(), size: 0, created: 0 };
    let kept = doggy::components::images::named(vec![img("1", "nginx:latest"), img("2", "redis"), img("3", "my-nginx")], &Some("nginx".to_string()));
    assert_eq!(kept.iter().map(|i| i.id.as_str()).collect::<Vec<_>>(), vec!["1", "3"]);
}

#[test]
fn dates_are_read_as_seconds() {
    assert_eq!(docker::parse_created(Some("1970-01-01T00:01:40Z".to_string())), Some(100));
    assert_eq!(docker::parse_created(Some("yesterday".to_string())), None);
    assert_eq!(docker::parse_created(None), None);
}

#[test]
fn container_details_are_laid_out() {
    let d = ContainerDetails {
        id: "0123456789abcdef".to_string(),
        name: "web".to_string(),
        image: None,
        image_id: Some("sha256:1".to_string()),
        labels: Vec::new(),
        status: ContainerStatus::Running(ContainerHealth::Healthy),
        age: Some(0),
        ports: vec![("80/tcp".to_string(), String::new())],
        volumes: Vec::new(),
        env: vec![("A".to_string(), "1".to_string())],
        entrypoint: Some(Vec::new()),
        command: Some(vec!["nginx".to_string()]),
        network: vec![("bridge".to_string(), Some("10.0.0.2".to_string())), ("host".to_string(), Some(String::new()))],
        processes: Vec::new(),
    };
    let lines = doggy::details::details_to_lines(&d, 2, 180);
    assert_eq!(
        lines,
        vec![
            "  Id: 0123456789ab",
            "  Name: web",
            "  Status: running (healthy)",
            "  Created: 3m",
            "  Image: sha256:1",
            "  Command:",
            "    - nginx",
            "  Environment:",
            "    A: 1",
            "  Networks:",
            "    - Name: bridge",
            "      IPAddress: 10.0.0.2",
            "    - Name: host",
            "  Ports:",
            "    - 80/tcp:",
        ]
    );
}

#[test]
fn compose_project_is_laid_out() {
    let mut c = doggy::runtime::model::Compose::new("shop".to_string(), Some("dc.yml".to_string()), None, None);
    c.volumes.push((
        "data".to_string(),
        VolumeSummary { id: "shop_data".to_string(), driver: "local".to_string(), created: 0, labels: Vec::new() },
    ));
    let lines = doggy::details::compose_to_lines(&c, 0);
    assert_eq!(lines, vec!["Compose project: shop", "Config file: dc.yml", "Volumes:", "- Id: data", "  Driver: local"]);
}
