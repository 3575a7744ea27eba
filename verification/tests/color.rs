use crossterm::style::Color as TerminalColor;
use prompt_theme::ui::Color;

#[test]
fn named_colors_map_to_their_namesakes() {
    assert_eq!(TerminalColor::from(Color::Black), TerminalColor::Black);
    assert_eq!(TerminalColor::from(Color::DarkGrey), TerminalColor::DarkGrey);
    assert_eq!(TerminalColor::from(Color::Red), TerminalColor::Red);
    assert_eq!(TerminalColor::from(Color::DarkRed), TerminalColor::DarkRed);
    assert_eq!(TerminalColor::from(Color::Green), TerminalColor::Green);
    assert_eq!(TerminalColor::from(Color::DarkGreen), TerminalColor::DarkGreen);
    assert_eq!(TerminalColor::from(Color::Yellow), TerminalColor::Yellow);
    assert_eq!(TerminalColor::from(Color::DarkYellow), TerminalColor::DarkYellow);
    assert_eq!(TerminalColor::from(Color::Blue), TerminalColor::Blue);
    assert_eq!(TerminalColor::from(Color::DarkBlue), TerminalColor::DarkBlue);
    assert_eq!(TerminalColor::from(Color::Magenta), TerminalColor::Magenta);
    assert_eq!(TerminalColor::from(Color::DarkMagenta), TerminalColor::DarkMagenta);
    assert_eq!(TerminalColor::from(Color::Cyan), TerminalColor::Cyan);
    assert_eq!(TerminalColor::from(Color::DarkCyan), TerminalColor::DarkCyan);
    assert_eq!(TerminalColor::from(Color::White), TerminalColor::White);
    assert_eq!(TerminalColor::from(Color::Grey), TerminalColor::Grey);
}

#[test]
fn rgb_channels_pass_through_unchanged() {
    assert_eq!(
        TerminalColor::from(Color::Rgb { r: 1, g: 2, b: 3 }),
        TerminalColor::Rgb { r: 1, g: 2, b: 3 }
    );
    assert_eq!(
        TerminalColor::from(Color::Rgb { r: 0, g: 0, b: 0 }),
        TerminalColor::Rgb { r: 0, g: 0, b: 0 }
    );
    assert_eq!(
        TerminalColor::from(Color::Rgb { r: 255, g: 255, b: 255 }),
        TerminalColor::Rgb { r: 255, g: 255, b: 255 }
    );
    assert_eq!(
        TerminalColor::from(Color::Rgb { r: 255, g: 0, b: 128 }),
        TerminalColor::Rgb { r: 255, g: 0, b: 128 }
    );
}

#[test]
fn rgb_channels_are_not_swapped() {
    let out = TerminalColor::from(Color::Rgb { r: 10, g: 20, b: 30 });
    assert_ne!(out, TerminalColor::Rgb { r: 30, g: 20, b: 10 });
    assert_ne!(out, TerminalColor::Rgb { r: 20, g: 10, b: 30 });
}

#[test]
fn ansi_index_passes_through_unchanged() {
    assert_eq!(TerminalColor::from(Color::AnsiValue(0)), TerminalColor::AnsiValue(0));
    assert_eq!(TerminalColor::from(Color::AnsiValue(26)), TerminalColor::AnsiValue(26));
    assert_eq!(TerminalColor::from(Color::AnsiValue(255)), TerminalColor::AnsiValue(255));
}

#[test]
fn every_ansi_index_and_channel_value_is_kept() {
    let mut n: u8 = 0;
    loop {
        assert_eq!(TerminalColor::from(Color::AnsiValue(n)), TerminalColor::AnsiValue(n));
        assert_eq!(
            TerminalColor::from(Color::Rgb { r: n, g: 255 - n, b: n / 2 }),
            TerminalColor::Rgb { r: n, g: 255 - n, b: n / 2 }
        );
        if n == 255 {
            break;
        }
        n += 1;
    }
}

#[test]
fn a_low_ansi_index_does_not_become_a_named_color() {
    assert_ne!(TerminalColor::from(Color::AnsiValue(0)), TerminalColor::Black);
    assert_ne!(TerminalColor::from(Color::AnsiValue(9)), TerminalColor::Red);
}

#[test]
fn conversion_keeps_distinct_colors_apart() {
    let all = vec![
        Color::Black,
        Color::DarkGrey,
        Color::Red,
        Color::DarkRed,
        Color::Green,
        Color::DarkGreen,
        Color::Yellow,
        Color::DarkYellow,
        Color::Blue,
        Color::DarkBlue,
        Color::Magenta,
        Color::DarkMagenta,
        Color::Cyan,
        Color::DarkCyan,
        Color::White,
        Color::Grey,
        Color::Rgb { r: 0, g: 0, b: 0 },
        Color::Rgb { r: 0, g: 0, b: 1 },
        Color::AnsiValue(0),
        Color::AnsiValue(1),
    ];
    for (i, a) in all.iter().enumerate() {
        for (j, b) in all.iter().enumerate() {
            let same = TerminalColor::from(*a) == TerminalColor::from(*b);
            assert_eq!(same, i == j);
        }
        assert_ne!(TerminalColor::from(*a), TerminalColor::Reset);
    }
}

#[test]
fn into_gives_the_same_color_as_from() {
    let out: TerminalColor = Color::DarkMagenta.into();
    assert_eq!(out, TerminalColor::DarkMagenta);
}

#[test]
fn colors_compare_by_structure() {
    assert_eq!(Color::Rgb { r: 1, g: 2, b: 3 }, Color::Rgb { r: 1, g: 2, b: 3 });
    assert_ne!(Color::Rgb { r: 1, g: 2, b: 3 }, Color::Rgb { r: 1, g: 2, b: 4 });
    assert_ne!(Color::AnsiValue(1), Color::AnsiValue(2));
    assert_ne!(Color::Red, Color::DarkRed);
    let c = Color::Green;
    let d = c;
    assert_eq!(c, d);
}
