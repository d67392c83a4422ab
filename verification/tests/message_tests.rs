use fill_monitor::clock::{to_beijing_time, LOCAL_OFFSET_HOURS};
use fill_monitor::fill::TransactionRecord;
use fill_monitor::message::{
    colour_for, format_body, format_title, get_formatted_side, kind_of_lowercase, kind_of_side,
    label_for, notification_for, tag_for, Rgb, SideKind,
};

#[test]
fn known_side_gets_its_label() {
    assert_eq!(get_formatted_side("long").0, "Long");
}

#[test]
fn unknown_side_passes_through() {
    assert_eq!(get_formatted_side("foo"), ("foo".to_string(), Rgb { r: 100, g: 100, b: 100 }));
    assert_eq!(get_formatted_side("Foo").0, "Foo");
    assert_eq!(get_formatted_side("").0, "");
}

#[test]
fn case_of_a_side_does_not_matter() {
    assert_eq!(get_formatted_side("LONG").0, "Long");
    assert_eq!(get_formatted_side("Buy").0, "Buy");
    assert_eq!(kind_of_side("SeNd"), SideKind::Transfer);
    assert_eq!(kind_of_side("WITHDRAW"), SideKind::Withdraw);
    // the kind is told from the lowercase form only
    assert_eq!(kind_of_lowercase("LONG"), SideKind::Other);
}

#[test]
fn every_side_has_label_colour_and_tag() {
    let green = Rgb { r: 50, g: 180, b: 50 };
    let red = Rgb { r: 220, g: 50, b: 50 };
    let table = [
        ("buy", SideKind::Buy, "Buy", green, "[LONG]"),
        ("sell", SideKind::Sell, "Sell", red, "[SHORT]"),
        ("long", SideKind::Long, "Long", green, "[LONG]"),
        ("short", SideKind::Short, "Short", red, "[SHORT]"),
        ("deposit", SideKind::Deposit, "Deposit", Rgb { r: 50, g: 150, b: 150 }, "[DEPOSIT]"),
        ("withdraw", SideKind::Withdraw, "Withdraw", Rgb { r: 150, g: 120, b: 50 }, "[WITHDRAW]"),
        ("transfer", SideKind::Transfer, "Transfer", Rgb { r: 150, g: 100, b: 180 }, "[TRANSFER]"),
        ("send", SideKind::Transfer, "Transfer", Rgb { r: 150, g: 100, b: 180 }, "[TRANSFER]"),
        ("receive", SideKind::Receive, "Receive", Rgb { r: 100, g: 150, b: 180 }, "[RECEIVE]"),
        ("swap", SideKind::Other, "swap", Rgb { r: 100, g: 100, b: 100 }, "[TRANSACTION]"),
    ];
    for (side, kind, label, colour, tag) in table {
        assert_eq!(kind_of_lowercase(side), kind);
        assert_eq!(kind_of_side(side), kind);
        assert_eq!(label_for(kind, side), label);
        assert_eq!(colour_for(kind), colour);
        assert_eq!(tag_for(kind), tag);
        assert_eq!(get_formatted_side(side), (label.to_string(), colour));
    }
}

#[test]
fn local_time_is_eight_hours_ahead() {
    assert_eq!(LOCAL_OFFSET_HOURS, 8);
    assert_eq!(to_beijing_time(1_700_000_000_000), "2023-11-15 06:13:20");
    assert_eq!(to_beijing_time(0), "1970-01-01 08:00:00");
    assert_eq!(to_beijing_time(947_638_923_004), "2000-01-12 09:02:03");
    assert_eq!(to_beijing_time(-1), "1970-01-01 07:59:59");
    // no daylight saving: the same offset in summer
    assert_eq!(to_beijing_time(1_688_169_600_000), "2023-07-01 08:00:00");
}

#[test]
fn time_outside_the_calendar_is_shown_as_the_epoch() {
    assert_eq!(to_beijing_time(i64::MAX), "1970-01-01 08:00:00");
    assert_eq!(to_beijing_time(i64::MIN), "1970-01-01 08:00:00");
}

#[test]
fn title_and_body_are_put_together() {
    assert_eq!(
        format_title("[LONG]", "2023-11-15 06:13:20", "BTC", "Long"),
        "[LONG] 2023-11-15 06:13:20 BTC Long"
    );
    assert_eq!(
        format_body("0xabc", "BTC", "Long", "0.5", "42000", "2023-11-15 06:13:20"),
        "Address: 0xabc\nToken: BTC\nAction: Long\nSize: 0.5\nPrice: 42000\nTime: 2023-11-15 06:13:20"
    );
    assert_eq!(format_title("", "", "", ""), "   ");
}

#[test]
fn message_about_a_record() {
    let record = TransactionRecord {
        timestamp: 1_700_000_020_000,
        token: "ETH".to_string(),
        side: "SELL".to_string(),
        size: "2".to_string(),
        leverage: 1,
        entry_price: "1999.5".to_string(),
    };
    let message = notification_for("0xAbC", &record);
    assert_eq!(message.title, "[SHORT] 2023-11-15 06:13:40 ETH Sell");
    assert_eq!(
        message.body,
        "Address: 0xAbC\nToken: ETH\nAction: Sell\nSize: 2\nPrice: 1999.5\nTime: 2023-11-15 06:13:40"
    );
    assert_eq!(message.clone(), message);
    let odd = TransactionRecord { side: "Liquidation".to_string(), ..record };
    let message = notification_for("0xAbC", &odd);
    assert_eq!(message.title, "[TRANSACTION] 2023-11-15 06:13:40 ETH Liquidation");
}
