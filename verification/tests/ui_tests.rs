use r_jellycli::ui::parse_usize;
use r_jellycli::text::trim_whitespace;
use r_jellycli::jellyfin::MediaItem;
use r_jellycli::ui::{display_name, Args, Cli};

fn no_args() -> Args {
    Args {
        server_url: None,
        api_key: None,
        username: None,
        password: None,
        alsa_device: "default".to_string(),
        config: None,
    }
}

fn item(id: &str, name: &str, media_type: &str, overview: Option<&str>) -> MediaItem {
    MediaItem {
        id: id.to_string(),
        name: name.to_string(),
        media_type: media_type.to_string(),
        overview: overview.map(|s| s.to_string()),
        path: None,
        is_folder: false,
        run_time_ticks: None,
    }
}

#[test]
fn test_args_defaults() {
    let args = Args {
        server_url: None,
        api_key: None,
        username: None,
        password: None,
        alsa_device: "default".to_string(),
        config: None,
    };

    assert_eq!(args.alsa_device, "default");
    assert!(args.server_url.is_none());
    assert!(args.api_key.is_none());
    assert!(args.username.is_none());
    assert!(args.password.is_none());
    assert!(args.config.is_none());
}

#[test]
fn test_display_items() {
    let cli = Cli {
        args: Args {
            server_url: None,
            api_key: None,
            username: None,
            password: None,
            alsa_device: "default".to_string(),
            config: None,
        },
    };

    let items = vec![
        MediaItem {
            id: "item1".to_string(),
            name: "Test Item 1".to_string(),
            media_type: "Audio".to_string(),
            overview: Some("Test Overview 1".to_string()),
            path: Some("/path/to/item1".to_string()),
            is_folder: false,
            run_time_ticks: None,
        },
        MediaItem {
            id: "item2".to_string(),
            name: "Test Item 2".to_string(),
            media_type: "Folder".to_string(),
            overview: None,
            path: None,
            is_folder: true,
            run_time_ticks: None,
        },
    ];

    cli.display_items(&items);
}

#[test]
fn item_table_layout() {
    let cli = Cli::new(no_args());
    let items = vec![item("item1", "Test Item 1", "Audio", None)];
    let lines = cli.display_items(&items);
    assert_eq!(lines.len(), 5);
    assert_eq!(lines[0], "\nAvailable Media Items:");
    assert_eq!(lines[1], format!("{:<5} {:<30} {:<15} {}", "#", "Name", "Type", "ID"));
    assert_eq!(lines[2], "-".repeat(80));
    assert_eq!(lines[3], format!("{:<5} {:<30} {:<15} {}", 1, "Test Item 1", "Audio", "item1"));
    assert_eq!(lines[4], "");
}

#[test]
fn long_names_are_cut() {
    let long = "A very long track name that does not fit";
    assert_eq!(display_name(long), format!("{:.25}...", long));
    assert_eq!(display_name(long), "A very long track name th...");
    let exact = "x".repeat(28);
    assert_eq!(display_name(&exact), exact);
    let over = "x".repeat(29);
    assert_eq!(display_name(&over), format!("{}...", "x".repeat(25)));
    // Ten two-byte characters: 20 bytes, not cut.
    let accented = "é".repeat(10);
    assert_eq!(display_name(&accented), accented);
    // Fifteen two-byte characters: 30 bytes, cut to 15 characters (all of them).
    let accented_long = "é".repeat(15);
    assert_eq!(display_name(&accented_long), format!("{}...", accented_long));
}

#[test]
fn selection_picks_the_numbered_item() {
    let cli = Cli::new(no_args());
    assert_eq!(cli.select_item(3, "2\n"), Ok(1));
    assert_eq!(cli.select_item(3, "  1  "), Ok(0));
    assert_eq!(cli.select_item(3, "+3"), Ok(2));
}

#[test]
fn selection_rejects_bad_input() {
    let cli = Cli::new(no_args());
    assert_eq!(cli.select_item(0, "1"), Err("No items available".to_string()));
    assert_eq!(
        cli.select_item(3, "4"),
        Err("Invalid selection. Please enter a number between 1 and 3".to_string())
    );
    assert_eq!(
        cli.select_item(3, "0"),
        Err("Invalid selection. Please enter a number between 1 and 3".to_string())
    );
    assert!(cli.select_item(3, "two").is_err());
    assert!(cli.select_item(3, "").is_err());
    assert!(cli.select_item(3, "-1").is_err());
}

#[test]
fn credentials_come_from_arguments_first() {
    let mut args = no_args();
    args.username = Some("alice".to_string());
    let cli = Cli::new(args);
    assert!(!cli.needs_username());
    assert!(cli.needs_password());
    let (u, p) = cli.get_credentials("ignored\n", "  secret \n");
    assert_eq!(u, "alice");
    assert_eq!(p, "secret");
}

#[test]
fn playback_status_lines() {
    let cli = Cli::new(no_args());
    let with = cli.display_playback_status(&item("i", "Song", "Audio", Some("About")));
    assert_eq!(
        with,
        vec![
            "\nNow playing: Song".to_string(),
            "Type: Audio".to_string(),
            "\nOverview: About".to_string(),
            "\nPress Ctrl+C to stop playback".to_string(),
        ]
    );
    let without = cli.display_playback_status(&item("i", "Song", "Audio", None));
    assert_eq!(without.len(), 3);
    assert_eq!(without[2], "\nPress Ctrl+C to stop playback");
}

#[test]
fn number_parsing_matches_std() {
    for input in ["0", "7", "+42", "007", "18446744073709551615", "18446744073709551616", "", "+", "-1", " 1", "1a", "99999999999999999999x"] {
        let expected = input.parse::<usize>().map_err(|e| e.to_string());
        assert_eq!(parse_usize(input), expected, "input {:?}", input);
    }
}

#[test]
fn trimming_matches_std() {
    for input in ["  a b  ", "\t\n x\r\n", "", "   ", "\u{3000}y\u{2028}", "\u{a0}z\u{85}", "none"] {
        assert_eq!(trim_whitespace(input), input.trim());
    }
}
