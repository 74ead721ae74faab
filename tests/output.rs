use wallsearch::category::Category;
use wallsearch::desktop::{apply_wallpaper, get_desktop_env, Command, DesktopEnv};
use wallsearch::error::WallError;
use wallsearch::output::{file_content, file_name, needs_conversion};

fn run(program: &str, args: &[&str]) -> Command {
    Command { program: program.to_string(), args: args.iter().map(|a| a.to_string()).collect() }
}

#[test]
fn plain_bytes_written_verbatim() {
    let bytes = vec![0xffu8, 0xd8, 0xff, 0xe0, 1, 2, 3];
    assert_eq!(file_content(&bytes), Ok(bytes.clone()));
    assert_eq!(file_content(&[]), Ok(vec![]));
}

#[test]
fn webp_signature_detection() {
    let mut b = b"RIFF\0\0\0\0WEBPVP8 ".to_vec();
    assert!(needs_conversion(&b));
    b[9] = b'X';
    assert!(!needs_conversion(&b));
    assert!(!needs_conversion(b"RIFF\0\0\0\0WEB"));
}

#[test]
fn broken_webp_is_decode_error() {
    assert_eq!(file_content(b"RIFF\0\0\0\0WEBPjunk"), Err(WallError::Decode));
}

#[test]
fn webp_converted_to_png() {
    let img = image::DynamicImage::ImageRgba8(image::RgbaImage::from_pixel(2, 2, image::Rgba([10, 20, 30, 255])));
    let mut webp = std::io::Cursor::new(Vec::new());
    img.write_to(&mut webp, image::ImageFormat::WebP).unwrap();
    let webp = webp.into_inner();
    assert!(needs_conversion(&webp));
    let png = file_content(&webp).unwrap();
    assert_ne!(png, webp);
    assert_eq!(&png[..8], b"\x89PNG\r\n\x1a\n");
    let back = image::load_from_memory(&png).unwrap().to_rgba8();
    assert_eq!(back.get_pixel(1, 1), &image::Rgba([10, 20, 30, 255]));
}

#[test]
fn file_names() {
    assert_eq!(file_name(Category::Anime, "https://w.cc/full/ab/wallhaven-abc.jpg", ""), "wallhaven-abc.jpg");
    assert_eq!(file_name(Category::Other, "noslash.png", ""), "noslash.png");
    assert_eq!(file_name(Category::Other, "http://x/dir/", ""), "");
    assert_eq!(file_name(Category::OtherAnime, "https://pic.re/image", "12345"), "12345.png");
}

#[test]
fn desktop_from_session_name() {
    assert_eq!(get_desktop_env(Some("Hyprland")), DesktopEnv::Hyprland);
    assert_eq!(get_desktop_env(Some("GNOME")), DesktopEnv::Gnome);
    assert_eq!(get_desktop_env(Some("dwm")), DesktopEnv::DWM);
    assert_eq!(get_desktop_env(Some("kde")), DesktopEnv::Other);
    assert_eq!(get_desktop_env(None), DesktopEnv::Other);
}

#[test]
fn hyprland_plan_all_monitors() {
    let monitors = vec!["DP-1".to_string(), "HDMI-A-1".to_string()];
    let plan = apply_wallpaper("/w/a.png", DesktopEnv::Hyprland, true, &monitors).unwrap();
    assert_eq!(plan, vec![
        run("hyprctl", &["hyprpaper", "unload", "all"]),
        run("hyprctl", &["hyprpaper", "preload", "/w/a.png"]),
        run("hyprctl", &["hyprpaper", "wallpaper", "DP-1,/w/a.png"]),
        run("hyprctl", &["hyprpaper", "preload", "/w/a.png"]),
        run("hyprctl", &["hyprpaper", "wallpaper", "HDMI-A-1,/w/a.png"]),
    ]);
}

#[test]
fn hyprland_plan_first_monitor_only() {
    let monitors = vec!["DP-1".to_string(), "HDMI-A-1".to_string()];
    let plan = apply_wallpaper("/w/a.png", DesktopEnv::Hyprland, false, &monitors).unwrap();
    assert_eq!(plan.len(), 3);
    assert_eq!(plan[2], run("hyprctl", &["hyprpaper", "wallpaper", "DP-1,/w/a.png"]));
}

#[test]
fn gnome_and_dwm_plans() {
    let plan = apply_wallpaper("home/u/a.png", DesktopEnv::Gnome, true, &vec![]).unwrap();
    assert_eq!(plan, vec![
        run("gsettings", &["set", "org.gnome.desktop.background", "picture-uri", "file:///home/u/a.png"]),
        run("gsettings", &["set", "org.gnome.desktop.background", "picture-uri-dark", "file:///home/u/a.png"]),
        run("gsettings", &["set", "org.gnome.desktop.background", "picture-options", "\"zoom\""]),
    ]);
    let plan = apply_wallpaper("/a.png", DesktopEnv::DWM, true, &vec![]).unwrap();
    assert_eq!(plan, vec![run("xwallpaper", &["--clear"]), run("xwallpaper", &["--zoom", "/a.png"])]);
}

#[test]
fn other_desktop_unsupported() {
    assert_eq!(apply_wallpaper("/a.png", DesktopEnv::Other, true, &vec![]), Err(WallError::UnsupportedEnvironment));
}
