use placenet_home::health::health;
use placenet_home::service_id::ServiceId;
use placenet_home::startup_screen::{centered_x, format_status, sorted_statuses, Area, Color, StartupScreen};
use placenet_home::supervisor::ServiceStatus;

#[test]
fn centering() {
    let area = Area { x: 10, y: 0, width: 40, height: 10 };
    assert_eq!(centered_x(area, 10), 25);
    assert_eq!(centered_x(area, 40), 10);
    assert_eq!(centered_x(area, 50), 10);
}

#[test]
fn status_labels() {
    assert_eq!(format_status(&ServiceStatus::Running { pid: 3 }), ("RUNNING", Color::Green));
    assert_eq!(format_status(&ServiceStatus::Stopped), ("STOPPED", Color::DarkGray));
    assert_eq!(format_status(&ServiceStatus::Starting), ("STARTING", Color::Yellow));
    assert_eq!(format_status(&ServiceStatus::Unavailable), ("UNAVAILABLE", Color::Red));
    assert_eq!(format_status(&ServiceStatus::Failed { reason: "x".to_string() }), ("FAILED", Color::Red));
}

#[test]
fn services_are_listed_by_name() {
    let statuses = vec![
        (ServiceId::MqttClient, ServiceStatus::Stopped),
        (ServiceId::Mosquitto, ServiceStatus::Running { pid: 1 }),
        (ServiceId::CloudGateway, ServiceStatus::Unavailable),
    ];
    let sorted = sorted_statuses(&statuses);
    let ids: Vec<ServiceId> = sorted.iter().map(|e| e.0).collect();
    assert_eq!(ids, vec![ServiceId::CloudGateway, ServiceId::Mosquitto, ServiceId::MqttClient]);
    let mut names: Vec<String> = statuses.iter().map(|e| format!("{:?}", e.0)).collect();
    names.sort();
    let sorted_names: Vec<String> = sorted.iter().map(|e| format!("{:?}", e.0)).collect();
    assert_eq!(names, sorted_names);
}

#[test]
fn screen_draws_title_services_and_commands() {
    let statuses = vec![
        (ServiceId::Mosquitto, ServiceStatus::Running { pid: 77 }),
        (ServiceId::Http, ServiceStatus::Stopped),
    ];
    let plan = StartupScreen::new().render(Area { x: 0, y: 0, width: 80, height: 30 }, &statuses).expect("fits");
    let texts: Vec<&str> = plan.iter().map(|d| d.text.as_str()).collect();
    assert!(texts.contains(&"║         PlaceNet Home Server         ║"));
    assert!(texts.contains(&" Services "));
    assert!(texts.contains(&" Commands "));
    assert!(texts.contains(&"  Http................"));
    assert!(texts.contains(&" RUNNING"));
    assert!(texts.contains(&"  q / Ctrl+C    "));
    let title_lines = plan.iter().filter(|d| d.color == Color::Cyan).count();
    assert_eq!(title_lines, 5);
    let http_row = plan.iter().find(|d| d.text == "  Http................").unwrap();
    let status = plan.iter().find(|d| d.text == " STOPPED").unwrap();
    assert_eq!(status.x, http_row.x + 22);
    assert_eq!(status.y, http_row.y);
    let line = format!("  {:.<20} {}", "Http", "STOPPED");
    assert_eq!(http_row.x, (80 - line.len() as u16) / 2);
}

#[test]
fn short_screen_draws_less() {
    let plan = StartupScreen::new().render(Area { x: 0, y: 0, width: 80, height: 4 }, &Vec::new()).expect("fits");
    assert!(plan.len() < 20);
}

#[test]
fn health_reports() {
    let ok = health(Ok(vec![(ServiceId::Http, ServiceStatus::Stopped)]), true).ok().unwrap();
    assert!(ok.mqtt_connected);
    assert_eq!(ok.services.len(), 1);
    assert_eq!(health(Err("closed".to_string()), false).err(), Some(500));
}

#[test]
fn screen_draws_into_given_bands() {
    let statuses = vec![(ServiceId::Gateway, ServiceStatus::Starting)];
    let title = Area { x: 0, y: 1, width: 60, height: 5 };
    let services = Area { x: 0, y: 7, width: 60, height: 4 };
    let commands = Area { x: 0, y: 12, width: 60, height: 8 };
    let plan = StartupScreen::draw(title, services, commands, &statuses).expect("fits");
    assert_eq!(plan[0].text, "╔══════════════════════════════════════╗");
    // The banner is 120 bytes long, wider than the band: it starts at the left edge.
    assert_eq!((plan[0].x, plan[0].y), (0, 1));
    let heading = plan.iter().find(|d| d.text == " Services ").unwrap();
    assert_eq!((heading.y, heading.color), (7, Color::Yellow));
    let row = plan.iter().find(|d| d.text == "  Gateway.............").unwrap();
    assert_eq!(row.y, 9);
    let label = plan.iter().find(|d| d.text == " STARTING").unwrap();
    assert_eq!((label.x, label.y, label.color), (row.x + 22, 9, Color::Yellow));
    let key = plan.iter().find(|d| d.text == "  start         ").unwrap();
    assert_eq!((key.y, key.color), (14, Color::Green));
    // Rows near the end of the 16-bit coordinate range are refused.
    let edge = Area { x: 65530, y: 0, width: 5, height: 8 };
    assert!(StartupScreen::draw(title, services, edge, &statuses).is_none());
}
