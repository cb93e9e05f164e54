use rustfetch::info::Info;
use rustfetch::logo::rust_logo;
use rustfetch::render::{align_lines, color_blocks, info_lines, render_report};

fn sample_info() -> Info {
    Info {
        user: String::from("ada"),
        host: String::from("engine"),
        os_name: String::from("Linux"),
        os_pretty: String::from("Linux 6.1"),
        kernel: String::from("6.1.0"),
        uptime: String::from("1 dk"),
        shell: String::from("zsh"),
        terminal: String::from("kitty"),
        packages: String::from("dpkg (42)"),
        resolution: String::from("1920x1080"),
        de_wm: String::from("GNOME"),
        cpu: String::from("Apple M1 (3200 MHz)"),
        gpu: String::from("-"),
        memory: String::from("1.0 GiB / 2.0 GiB"),
    }
}

#[test]
fn logo_has_fourteen_colored_rows() {
    let logo = rust_logo();
    assert_eq!(logo.len(), 14);
    assert_eq!(logo[0], "\u{1b}[38;2;222;165;132m                         \u{1b}[39m");
    assert_eq!(logo[1], "\u{1b}[38;2;201;132;88m        @@@@@@@@@@       \u{1b}[39m");
    assert_eq!(logo[2], "\u{1b}[38;2;160;93;63m    @ @@@@ @@@  @@@@@@   \u{1b}[39m");
    assert_eq!(logo[3], "\u{1b}[38;2;120;69;45m   @@@@            @@@@  \u{1b}[39m");
    assert_eq!(logo[4], "\u{1b}[38;2;222;165;132m  @@@@@@@@@@@@@@@@  @@@@ \u{1b}[39m");
}

#[test]
fn color_blocks_are_eight_swatches() {
    let expected = [
        (255, 59, 48),
        (255, 149, 0),
        (255, 204, 0),
        (52, 199, 89),
        (0, 122, 255),
        (88, 86, 214),
        (175, 82, 222),
        (142, 142, 147),
    ]
        .iter()
        .map(|(r, g, b)| format!("\u{1b}[38;2;{};{};{}m■\u{1b}[39m", r, g, b))
        .collect::<Vec<_>>()
        .join(" ");
    assert_eq!(color_blocks(), expected);
}

#[test]
fn info_rows_are_labeled_and_bold() {
    let rows = info_lines(&sample_info());
    assert_eq!(rows.len(), 13);
    assert_eq!(
        rows[0],
        "\u{1b}[1mada\u{1b}[0m\u{1b}[2m@\u{1b}[0m\u{1b}[1mengine\u{1b}[0m \u{1b}[2m(\u{1b}[0m\u{1b}[2mLinux\u{1b}[0m\u{1b}[2m)\u{1b}[0m"
    );
    assert_eq!(rows[1], "\u{1b}[1mOS\u{1b}[0m Linux 6.1");
    assert_eq!(rows[11], "\u{1b}[1mMemory\u{1b}[0m 1.0 GiB / 2.0 GiB");
    assert_eq!(rows[12], color_blocks());
}

#[test]
fn alignment_pairs_rows_positionally() {
    let logo = vec![String::from("AAA"), String::from("BBB"), String::from("CCC")];
    let fields = vec![String::from("f1")];
    let rows = align_lines(&logo, &fields);
    assert_eq!(rows.len(), 3);
    assert_eq!(rows[0], "AAA  f1");
    assert_eq!(rows[1], "BBB");
    assert_eq!(rows[2], "CCC");
}

#[test]
fn alignment_pads_when_logo_is_exhausted() {
    let logo = vec![String::from("AAA")];
    let fields = vec![String::from("f1"), String::from("f2"), String::from("f3")];
    let rows = align_lines(&logo, &fields);
    assert_eq!(rows.len(), 3);
    assert_eq!(rows[0], "AAA  f1");
    assert_eq!(rows[1], format!("{:24}{}", "", "f2"));
    assert_eq!(rows[2], format!("{:24}{}", "", "f3"));
}

#[test]
fn alignment_skips_gap_for_empty_info_row() {
    let logo = vec![String::from("AAA"), String::from("BBB")];
    let fields = vec![String::new(), String::from("f2")];
    let rows = align_lines(&logo, &fields);
    assert_eq!(rows.len(), 2);
    assert_eq!(rows[0], "AAA");
    assert_eq!(rows[1], "BBB  f2");
}

#[test]
fn report_zips_logo_and_info() {
    let info = sample_info();
    let rows = render_report(&info);
    assert_eq!(rows.len(), 14);
    let logo = rust_logo();
    let fields = info_lines(&info);
    assert_eq!(rows[0], format!("{}  {}", logo[0], fields[0]));
    assert_eq!(rows[12], format!("{}  {}", logo[12], fields[12]));
    assert_eq!(rows[13], logo[13].clone());
}
