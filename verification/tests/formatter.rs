use wakatime_updater::formatter::{format_duration, generate_bar, percent_label, StatsFormatter};
use wakatime_updater::wakatime::stats::{StatItem, StatsData};

/// The cells that a share fills, as floating-point arithmetic rounds them.
fn cells_of_float(percent: f64) -> usize {
    ((percent / 100.0) * 25.0).round() as usize
}

/// An entry as it is read from a share in percent.
fn item(name: &str, percent: f64, text: &str) -> StatItem {
    StatItem {
        name: name.to_string(),
        percent: (percent * 100.0).round() as u32,
        bar_cells: cells_of_float(percent),
        text: text.to_string(),
        total_seconds: 0,
    }
}

fn bar(filled: usize) -> String {
    format!("{}{}", "█".repeat(filled), "░".repeat(25 - filled))
}

/// The duration as floating-point arithmetic words it.
fn duration_of_float(seconds: f64) -> String {
    let hours = (seconds / 3600.0).floor() as u32;
    let minutes = ((seconds % 3600.0) / 60.0).floor() as u32;
    if hours > 0 {
        format!("{} hrs {} mins", hours, minutes)
    } else {
        format!("{} mins", minutes)
    }
}

#[test]
fn bar_shows_the_cells_it_is_given() {
    for cells in 0..=25usize {
        assert_eq!(generate_bar(cells), bar(cells));
        assert_eq!(generate_bar(cells).chars().count(), 25);
    }
    assert_eq!(generate_bar(0), "░░░░░░░░░░░░░░░░░░░░░░░░░");
    assert_eq!(generate_bar(16), "████████████████░░░░░░░░░");
    assert_eq!(generate_bar(25), "█████████████████████████");
}

#[test]
fn bar_never_overflows() {
    assert_eq!(generate_bar(26), bar(25));
    assert_eq!(generate_bar(250), bar(25));
    assert_eq!(generate_bar(usize::MAX), bar(25));
}

#[test]
fn share_has_two_decimals() {
    assert_eq!(percent_label(0), "0.00%");
    assert_eq!(percent_label(5), "0.05%");
    assert_eq!(percent_label(50), "0.50%");
    assert_eq!(percent_label(6208), "62.08%");
    assert_eq!(percent_label(10000), "100.00%");
    assert_eq!(percent_label(123456), "1234.56%");
}

#[test]
fn share_agrees_with_floating_point_on_every_share() {
    for percent in 0..=10000u32 {
        assert_eq!(
            percent_label(percent),
            format!("{:.2}%", percent as f64 / 100.0),
            "{}",
            percent
        );
    }
}

#[test]
fn duration_in_hours_and_minutes() {
    assert_eq!(format_duration(0), "0 mins");
    assert_eq!(format_duration(59), "0 mins");
    assert_eq!(format_duration(60), "1 mins");
    assert_eq!(format_duration(3599), "59 mins");
    assert_eq!(format_duration(3600), "1 hrs 0 mins");
    assert_eq!(format_duration(38950), "10 hrs 49 mins");
    assert_eq!(format_duration(360000), "100 hrs 0 mins");
}

#[test]
fn duration_agrees_with_floating_point() {
    for seconds in (0..200000u64).step_by(37) {
        assert_eq!(format_duration(seconds), duration_of_float(seconds as f64 + 0.75));
    }
}

#[test]
fn snapshot_without_entries_shows_the_total_alone() {
    let stats = StatsData {
        languages: vec![],
        editors: vec![],
        operating_systems: vec![],
        projects: vec![],
        total_seconds: 125,
        is_up_to_date: true,
    };
    assert_eq!(StatsFormatter::format(&stats), "**🕐 Total Coding Time**: 2 mins\n\n");
}

#[test]
fn snapshot_is_rendered_block_by_block() {
    let stats = StatsData {
        languages: vec![
            item("Rust", 62.08, "6 hrs 43 mins"),
            item("Python", 25.00, "2 hrs 42 mins"),
            item("A language with a long name", 8.00, "51 mins"),
            item("TOML", 3.00, "19 mins"),
            item("Markdown", 1.50, "9 mins"),
            item("YAML", 0.42, "2 mins"),
        ],
        editors: vec![item("VS Code", 100.00, "10 hrs 49 mins")],
        operating_systems: vec![
            item("Linux", 70.00, ""),
            item("Mac", 20.00, ""),
            item("Windows", 9.00, ""),
            item("Unknown", 1.00, ""),
        ],
        projects: vec![item("wakatime-updater", 55.55, "6 hrs")],
        total_seconds: 38950,
        is_up_to_date: true,
    };
    let mut expected = String::new();
    expected.push_str("**🕐 Total Coding Time**: 10 hrs 49 mins\n\n");
    expected.push_str("**💻 Programming Languages**:\n```text\n");
    expected.push_str(&format!("{:<15} {} {:>6} {}\n", "Rust", bar(16), "62.08%", "6 hrs 43 mins"));
    expected.push_str(&format!("{:<15} {} {:>6} {}\n", "Python", bar(6), "25.00%", "2 hrs 42 mins"));
    expected.push_str(&format!(
        "{:<15} {} {:>6} {}\n",
        "A language with a long name",
        bar(2),
        "8.00%",
        "51 mins"
    ));
    expected.push_str(&format!("{:<15} {} {:>6} {}\n", "TOML", bar(1), "3.00%", "19 mins"));
    expected.push_str(&format!("{:<15} {} {:>6} {}\n", "Markdown", bar(0), "1.50%", "9 mins"));
    expected.push_str("```\n\n");
    expected.push_str("**🛠️ Editors**:\n```text\n");
    expected.push_str(&format!("{:<15} {} {:>6}\n", "VS Code", bar(25), "100.00%"));
    expected.push_str("```\n\n");
    expected.push_str("**💻 Operating Systems**:\n```text\n");
    expected.push_str(&format!("{:<15} {} {:>6}\n", "Linux", bar(18), "70.00%"));
    expected.push_str(&format!("{:<15} {} {:>6}\n", "Mac", bar(5), "20.00%"));
    expected.push_str(&format!("{:<15} {} {:>6}\n", "Windows", bar(2), "9.00%"));
    expected.push_str("```\n\n");
    expected.push_str("**📂 Projects**:\n```text\n");
    expected.push_str(&format!("{:<30} {} {:>6}\n", "wakatime-updater", bar(14), "55.55%"));
    expected.push_str("```\n");
    assert_eq!(StatsFormatter::format(&stats), expected);
}

#[test]
fn line_is_laid_out_in_columns() {
    let stats = StatsData {
        languages: vec![item("Rust", 62.08, "6 hrs 43 mins")],
        editors: vec![],
        operating_systems: vec![],
        projects: vec![item("Füür 📊", 4.00, "")],
        total_seconds: 0,
        is_up_to_date: true,
    };
    assert_eq!(
        StatsFormatter::format(&stats),
        "**🕐 Total Coding Time**: 0 mins\n\n\
         **💻 Programming Languages**:\n```text\n\
         Rust            ████████████████░░░░░░░░░ 62.08% 6 hrs 43 mins\n\
         ```\n\n\
         **📂 Projects**:\n```text\n\
         Füür 📊                         █░░░░░░░░░░░░░░░░░░░░░░░░  4.00%\n\
         ```\n"
    );
}
