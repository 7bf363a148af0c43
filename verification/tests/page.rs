use nanowatchrs::calendar::{CivilTime, Date, Timestamp};
use nanowatchrs::site::{Incident, PageParams, SiteParams, SiteSettings, StatusPageContext};
use nanowatchrs::utils::templates::{
    date, format_incident_description, incident_state, join_blocks, render_incident, time,
    IncidentBlock,
};
use nanowatchrs::{ASSETS_PATH, CONFIG_PATH, HISTORY_LENGTH, HISTORY_PATH};

fn page_stamp(day: u32, hour: u32) -> Timestamp {
    let date = Date::from_ymd(2024, 8, day).unwrap();
    Timestamp::new(date, CivilTime { hour, minute: 5, second: 0 }).unwrap()
}

fn page_incident(status: &str) -> Incident {
    Incident {
        title: "Database outage".to_string(),
        description: "Primary down\nFailing over".to_string(),
        status: status.to_string(),
        display_date: "August 2nd".to_string(),
        started_at: page_stamp(2, 9),
        resolved_at: page_stamp(3, 17),
    }
}

#[test]
fn the_paths_and_the_window_length_are_fixed() {
    assert_eq!(ASSETS_PATH, "assets");
    assert_eq!(CONFIG_PATH, "config/config.json");
    assert_eq!(HISTORY_PATH, "config");
    assert_eq!(HISTORY_LENGTH, 30);
}

#[test]
fn line_feeds_become_breaks() {
    assert_eq!(format_incident_description("one\ntwo"), "one<br>two");
    assert_eq!(format_incident_description("one\n\ntwo\n"), "one<br><br>two<br>");
    assert_eq!(format_incident_description("\n"), "<br>");
    assert_eq!(format_incident_description("no line feed"), "no line feed");
    assert_eq!(format_incident_description(""), "");
    assert_eq!(format_incident_description("crlf\r\nstays"), "crlf\r<br>stays");
    assert_eq!(format_incident_description("größer\nkleiner"), "größer<br>kleiner");
}

#[test]
fn an_incidents_status_picks_its_style() {
    assert_eq!(incident_state("Resolved"), "success");
    assert_eq!(incident_state("resolved"), "success");
    assert_eq!(incident_state("Ongoing"), "warning");
    assert_eq!(incident_state("ongoing"), "warning");
    assert_eq!(incident_state("RESOLVED"), "");
    assert_eq!(incident_state("Resolved "), "");
    assert_eq!(incident_state("investigating"), "");
    assert_eq!(incident_state(""), "");
}

#[test]
fn an_incident_is_prepared_for_the_page() {
    assert_eq!(
        render_incident(&page_incident("Resolved")),
        IncidentBlock {
            title: "Database outage".to_string(),
            description: "Primary down<br>Failing over".to_string(),
            state: "success".to_string(),
            status: "Resolved".to_string(),
            display_date: "August 2nd".to_string(),
            started_at: "2024-08-02 09:05:00".to_string(),
            resolved_at: "2024-08-03 17:05:00".to_string(),
        }
    );
    assert_eq!(render_incident(&page_incident("ongoing")).state, "warning");
    assert_eq!(render_incident(&page_incident("Monitoring")).state, "");
}

#[test]
fn the_date_filter_keeps_the_day_of_a_timestamp() {
    assert_eq!(date("2021-01-01 12:00:00"), "2021-01-01");
    assert_eq!(date("1999-12-31 23:59:59"), "1999-12-31");
}

#[test]
fn the_time_filter_keeps_the_time_of_a_timestamp() {
    assert_eq!(time("2021-01-01 12:00:00"), "12:00:00");
    assert_eq!(time("1999-12-31 23:59:59"), "23:59:59");
    assert_eq!(time("1999-12-31 00:00:07"), "00:00:07");
}

#[test]
fn the_filters_hand_back_what_is_no_timestamp() {
    for text in ["", "yesterday", "2021-01-01", "2021-02-30 12:00:00", "2021-01-01 25:00:00"] {
        assert_eq!(date(text), text);
        assert_eq!(time(text), text);
    }
}

#[test]
fn blocks_are_joined_by_line_feeds() {
    let blocks: Vec<String> = ["<a>", "<b>", "", "<c>"].iter().map(|b| b.to_string()).collect();
    assert_eq!(join_blocks(&blocks), Some("<a>\n<b>\n\n<c>".to_string()));
    assert_eq!(join_blocks(&blocks[..1].to_vec()), Some("<a>".to_string()));
}

#[test]
fn no_blocks_make_no_page() {
    assert_eq!(join_blocks(&Vec::new()), None);
}

#[test]
fn a_configuration_holds_settings_checks_and_incidents() {
    let context = StatusPageContext {
        settings: SiteSettings {
            site: SiteParams {
                name: "Example".to_string(),
                description: "An example".to_string(),
                url: "https://example.org".to_string(),
                logo: "logo.svg".to_string(),
            },
            page: PageParams {
                title: "Status".to_string(),
                header: "Example status".to_string(),
                header_link: "https://example.org".to_string(),
                subheader: "All systems".to_string(),
            },
        },
        checks: Vec::new(),
        incidents: vec![page_incident("Resolved")],
    };
    assert_eq!(context.settings.site.name, "Example");
    assert_eq!(context.settings.page.title, "Status");
    assert_eq!(context.incidents[0].resolved_at, page_stamp(3, 17));
}
