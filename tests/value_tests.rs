use ergonomic_windows::console::{Color, ScreenBufferInfo, TextAttribute};
use ergonomic_windows::env::split_path_list;
use ergonomic_windows::controls::{
    ButtonStyle, EditStyle, TextAlign, BS_AUTORADIOBUTTON, BS_CHECKBOX, BS_GROUPBOX, BS_PUSHBUTTON,
};
use ergonomic_windows::error::Error;
use ergonomic_windows::fs::{CreationDisposition, MoveOptions, OpenOptions, FILE_ATTRIBUTE_NORMAL};
use ergonomic_windows::module::LoadFlags;
use ergonomic_windows::registry::Value;
use ergonomic_windows::sysinfo::{OsVersion, ProcessorArchitecture};
use ergonomic_windows::time::{PerformanceCounter, Stopwatch, SystemTime, TimeZone, TimeZoneStatus};
use ergonomic_windows::webview::WebViewBuilder;
use ergonomic_windows::xaml::{FontWeight, XamlColor};

#[test]
fn test_value_constructors() {
    let s = Value::string("test");
    assert_eq!(s.as_string(), Some("test"));

    let d = Value::dword(42);
    assert_eq!(d.as_dword(), Some(42));

    let q = Value::qword(1234567890);
    assert_eq!(q.as_qword(), Some(1234567890));

    let b = Value::binary(vec![1, 2, 3]);
    assert_eq!(b.as_binary(), Some(&[1u8, 2, 3][..]));
}

#[test]
fn value_accessors_reject_other_kinds() {
    let d = Value::dword(7);
    assert_eq!(d.as_string(), None);
    assert_eq!(d.as_qword(), None);
    assert_eq!(d.as_binary(), None);
    let e = Value::ExpandString("%TEMP%".to_string());
    assert_eq!(e.as_string(), Some("%TEMP%"));
    assert_eq!(Value::qword(1).as_dword(), None);
}

#[test]
fn test_xaml_color() {
    let c = XamlColor::rgb(255, 128, 64);
    assert_eq!(c.a, 255);
    assert_eq!(c.r, 255);
    assert_eq!(c.g, 128);
    assert_eq!(c.b, 64);

    let c2 = XamlColor::from_rgb_hex(0xFF8040);
    assert_eq!(c2.r, 255);
    assert_eq!(c2.g, 128);
    assert_eq!(c2.b, 64);
}

#[test]
fn xaml_color_from_argb() {
    let c = XamlColor::from_argb_hex(0x80112233);
    assert_eq!(c, XamlColor::argb(0x80, 0x11, 0x22, 0x33));
    let d = XamlColor::from_rgb_hex(0xAB112233);
    assert_eq!(d, XamlColor::argb(255, 0x11, 0x22, 0x33));
}

#[test]
fn test_font_weight() {
    assert_eq!(FontWeight::Normal.to_u16(), 400);
    assert_eq!(FontWeight::Bold.to_u16(), 700);
}

#[test]
fn test_edit_style_default() {
    let style = EditStyle::default();
    assert!(!style.multiline);
    assert!(!style.password);
    assert_eq!(style.align, TextAlign::Left);
}

#[test]
fn move_options_builder() {
    let o = MoveOptions::new();
    assert!(!o.replace_existing && !o.copy_allowed && !o.write_through);
    let o = o.replace().write_through();
    assert!(o.replace_existing);
    assert!(!o.copy_allowed);
    assert!(o.write_through);
    assert!(MoveOptions::default().allow_copy().copy_allowed);
}

#[test]
fn load_flags_combine() {
    let f = LoadFlags::new().with(LoadFlags::new());
    assert_eq!(f, LoadFlags::new());
}

#[test]
fn web_view_builder_chains() {
    let _b = WebViewBuilder::new()
        .with_url("https://example.com")
        .with_user_data_folder("data")
        .with_dev_tools(true)
        .with_context_menu(false)
        .with_zoom(false);
}

#[test]
fn screen_buffer_window_size() {
    let info = ScreenBufferInfo {
        size_x: 120,
        size_y: 9000,
        cursor_x: 0,
        cursor_y: 3,
        attributes: 7,
        window_left: 0,
        window_top: 10,
        window_right: 119,
        window_bottom: 39,
        max_window_x: 120,
        max_window_y: 50,
    };
    assert_eq!(info.window_width(), 120);
    assert_eq!(info.window_height(), 30);
}

#[test]
fn system_time_names() {
    let t = SystemTime {
        year: 2024,
        month: 2,
        day_of_week: 3,
        day: 14,
        hour: 0,
        minute: 0,
        second: 0,
        milliseconds: 0,
    };
    assert_eq!(t.day_name(), "Wednesday");
    assert_eq!(t.month_name(), "February");
    let bad = SystemTime { month: 13, day_of_week: 7, ..t };
    assert_eq!(bad.day_name(), "Unknown");
    assert_eq!(bad.month_name(), "Unknown");
}

#[test]
fn time_zone_bias() {
    let tz = TimeZone {
        bias: 300,
        standard_name: "Eastern Standard Time".to_string(),
        standard_bias: 0,
        daylight_name: "Eastern Daylight Time".to_string(),
        daylight_bias: -60,
        status: TimeZoneStatus::Daylight,
    };
    assert_eq!(tz.total_bias(), 240);
    assert!(tz.is_daylight_saving());
    let std_tz = TimeZone { status: TimeZoneStatus::Standard, ..tz };
    assert_eq!(std_tz.total_bias(), 300);
    assert!(!std_tz.is_daylight_saving());
}

#[test]
fn processor_architecture_ids() {
    assert_eq!(ProcessorArchitecture::from_id(0), ProcessorArchitecture::X86);
    assert_eq!(ProcessorArchitecture::from_id(9), ProcessorArchitecture::X64);
    assert_eq!(ProcessorArchitecture::from_id(5), ProcessorArchitecture::Arm);
    assert_eq!(ProcessorArchitecture::from_id(12), ProcessorArchitecture::Arm64);
    assert_eq!(ProcessorArchitecture::from_id(6), ProcessorArchitecture::Unknown(6));
}

#[test]
fn os_version_checks() {
    let v = OsVersion {
        major: 10,
        minor: 0,
        build: 19045,
        service_pack_major: 0,
        service_pack_minor: 0,
        product_type: 1,
    };
    assert!(v.is_windows_10_or_later());
    assert!(!v.is_windows_11_or_later());
    let w = OsVersion { build: 22000, ..v };
    assert!(w.is_windows_11_or_later());
    let old = OsVersion { major: 6, build: 30000, ..v };
    assert!(!old.is_windows_10_or_later());
    assert!(!old.is_windows_11_or_later());
}

#[test]
fn error_constructors() {
    assert!(matches!(Error::null_pointer("p"), Error::NullPointer { context: "p" }));
    assert!(matches!(Error::invalid_handle("h"), Error::InvalidHandle { context: "h" }));
    assert!(matches!(Error::buffer_too_small(8, 4), Error::BufferTooSmall { needed: 8, actual: 4 }));
    match Error::not_found("k") {
        Error::NotFound(m) => assert_eq!(m, "k"),
        other => panic!("unexpected: {:?}", other),
    }
    match Error::access_denied("d") {
        Error::AccessDenied(m) => assert_eq!(m, "d"),
        other => panic!("unexpected: {:?}", other),
    }
    match Error::custom("c") {
        Error::Custom(m) => assert_eq!(m, "c"),
        other => panic!("unexpected: {:?}", other),
    }
}

#[test]
fn os_version_display_names() {
    let v = OsVersion {
        major: 10,
        minor: 0,
        build: 19045,
        service_pack_major: 0,
        service_pack_minor: 0,
        product_type: 1,
    };
    assert_eq!(v.display_string(), "Windows 10 (Build 19045)");
    assert_eq!(OsVersion { build: 22631, ..v }.display_string(), "Windows 11 (Build 22631)");
    assert_eq!(OsVersion { major: 6, minor: 3, build: 9600, ..v }.display_string(), "Windows 8.1 (Build 9600)");
    assert_eq!(OsVersion { major: 6, minor: 2, build: 9200, ..v }.display_string(), "Windows 8 (Build 9200)");
    assert_eq!(OsVersion { major: 6, minor: 1, build: 7601, ..v }.display_string(), "Windows 7 (Build 7601)");
    assert_eq!(OsVersion { major: 6, minor: 0, build: 6002, ..v }.display_string(), "Windows Vista (Build 6002)");
    assert_eq!(OsVersion { major: 6, minor: 4, build: 0, ..v }.display_string(), "Windows 6.4 (Build 0)");
    assert_eq!(OsVersion { major: 5, minor: 1, build: 2600, ..v }.display_string(), "Windows 5.1 (Build 2600)");
}

#[test]
fn time_zone_utc_offset_seconds() {
    let tz = TimeZone {
        bias: -330,
        standard_name: String::new(),
        standard_bias: 0,
        daylight_name: String::new(),
        daylight_bias: -60,
        status: TimeZoneStatus::Unknown,
    };
    assert_eq!(tz.total_bias(), -330);
    assert_eq!(tz.utc_offset(), 330 * 60);
    let east = TimeZone { bias: 300, status: TimeZoneStatus::Daylight, ..tz };
    assert_eq!(east.utc_offset(), 240 * 60);
}

#[test]
fn performance_counter_elapsed_parts() {
    let c = PerformanceCounter::with_frequency(1000);
    assert_eq!(c.frequency(), 1000);
    assert_eq!(c.elapsed(0, 2500), (2, 500_000_000));
    assert_eq!(c.elapsed(7, 7), (0, 0));
    let fast = PerformanceCounter::with_frequency(3);
    assert_eq!(fast.elapsed(10, 12), (0, 666_666_666));
}

#[test]
fn stopwatch_accumulates_periods() {
    let mut w = Stopwatch::new(PerformanceCounter::with_frequency(1000));
    assert!(!w.is_running());
    assert_eq!(w.elapsed(5000), (0, 0));
    w.start(100);
    assert!(w.is_running());
    w.start(900);
    w.stop(1100);
    assert!(!w.is_running());
    assert_eq!(w.elapsed(9999), (1, 0));
    w.start(2000);
    assert_eq!(w.elapsed(2750), (1, 750_000_000));
    w.stop(2750);
    w.start(3000);
    w.stop(3500);
    assert_eq!(w.elapsed(0), (2, 250_000_000));
    w.reset();
    assert_eq!(w.elapsed(0), (0, 0));
    w.restart(10);
    assert!(w.is_running());
    assert_eq!(w.elapsed(20), (0, 10_000_000));
    let s = Stopwatch::start_new(PerformanceCounter::with_frequency(10), 0);
    assert!(s.is_running());
    assert_eq!(s.elapsed(25), (2, 500_000_000));
}

#[test]
fn path_list_splitting() {
    assert_eq!(
        split_path_list("C:\\Windows;;C:\\Tools;"),
        vec!["C:\\Windows".to_string(), "C:\\Tools".to_string()]
    );
    assert!(split_path_list("").is_empty());
    assert!(split_path_list(";;;").is_empty());
    assert_eq!(split_path_list("one"), vec!["one".to_string()]);
}

#[test]
fn test_text_attribute() {
    let attr = TextAttribute::new(Color::White, Color::DarkBlue);
    assert_eq!(attr.to_u16(), 0x1F);
}

#[test]
fn text_attribute_word_round_trip() {
    let attr = TextAttribute::from_u16(0x1F);
    assert_eq!(attr, TextAttribute::new(Color::White, Color::DarkBlue));
    assert_eq!(TextAttribute::default().to_u16(), 0x07);
    assert_eq!(TextAttribute::default_colors(), TextAttribute::new(Color::Gray, Color::Black));
    assert_eq!(Color::from_u16(0xFC), Color::Red);
    assert_eq!(Color::Yellow.value(), 14);
    assert_eq!(TextAttribute::from_u16(0xABCD), TextAttribute::new(Color::Magenta, Color::Red));
}

#[test]
fn open_options_disposition() {
    let o = OpenOptions::new();
    assert!(o.share_read && !o.share_write && !o.read && !o.write);
    assert_eq!(o.attributes, FILE_ATTRIBUTE_NORMAL);
    assert_eq!(o.creation_disposition(), CreationDisposition::OpenExisting);
    assert_eq!(o.truncate(true).creation_disposition(), CreationDisposition::TruncateExisting);
    assert_eq!(o.create(true).creation_disposition(), CreationDisposition::OpenAlways);
    assert_eq!(o.create(true).truncate(true).creation_disposition(), CreationDisposition::CreateAlways);
    assert_eq!(
        o.create(true).truncate(true).create_new(true).creation_disposition(),
        CreationDisposition::CreateNew
    );
    let w = OpenOptions::default().read(true).write(true).share_read(false).share_write(true).attributes(2);
    assert!(w.read && w.write && !w.share_read && w.share_write);
    assert_eq!(w.attributes, 2);
}

#[test]
fn test_button_style() {
    assert_eq!(ButtonStyle::Push.to_style(), BS_PUSHBUTTON as u32);
    assert_eq!(ButtonStyle::Checkbox.to_style(), BS_CHECKBOX as u32);
}

#[test]
fn button_style_values() {
    assert_eq!(ButtonStyle::Default.to_style(), 1);
    assert_eq!(ButtonStyle::AutoRadio.to_style(), BS_AUTORADIOBUTTON);
    assert_eq!(ButtonStyle::GroupBox.to_style(), BS_GROUPBOX);
}
