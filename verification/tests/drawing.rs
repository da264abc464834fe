use netscanner::action::Action;
use netscanner::addr::{IpAddress, Ipv4Address};
use netscanner::components::drawing::{Drawing, InputBox, INPUT_HEIGHT, INPUT_SIZE};
use netscanner::components::packetdump::PacketDump;
use netscanner::components::rows::{make_dump_titles, make_type_titles};
use netscanner::enums::{PacketTypeEnum, TabsEnum};
use netscanner::layout::{Position, Rect};
use netscanner::mode::Mode;
use netscanner::style::{Color, StyledSpan};
use netscanner::time::Timestamp;

fn styled(content: &str, fg: Option<Color>, bold: bool) -> StyledSpan {
    StyledSpan { content: content.to_string(), fg, bg: None, bold }
}

fn view_with_records() -> PacketDump {
    let mut view = PacketDump::new();
    view.update(Action::TabChange(TabsEnum::Packets), false);
    for port in [4000u16, 4001, 4002] {
        let mut datagram = Vec::new();
        datagram.extend_from_slice(&port.to_be_bytes());
        datagram.extend_from_slice(&[0, 53, 0, 8, 0, 0]);
        let source = IpAddress::V4(Ipv4Address { octets: [10, 0, 0, 1] });
        let destination = IpAddress::V4(Ipv4Address { octets: [10, 0, 0, 2] });
        let record = PacketDump::handle_udp_packet("eth0", source, destination, &datagram)
            .expect("a UDP record");
        let kind = record.packet_type();
        view.update(Action::PacketDump(Timestamp { secs: port as i64, nanos: 0 }, record, kind), false);
    }
    view
}

#[test]
fn text_field_is_bordered_by_its_mode() {
    let mut view = view_with_records();
    let normal: InputBox = view.make_input(4);
    assert_eq!(normal.text_color, Color::Green);
    assert_eq!(normal.scroll, 4);
    assert_eq!(normal.border_color, Color::Rgb(100, 100, 100));
    assert_eq!(
        normal.input_title,
        vec![
            styled("|", None, false),
            styled("i", Some(Color::Red), true),
            styled("nput", Some(Color::Yellow), false),
            styled("/", None, false),
            styled("ESC", Some(Color::Red), true),
            styled("|", None, false),
        ]
    );
    assert_eq!(
        normal.clear_title,
        vec![
            styled("|", None, false),
            styled("c", Some(Color::Red), true),
            styled("lear", Some(Color::Yellow), false),
            styled("|", None, false),
        ]
    );
    view.update(Action::ModeChange(Mode::Input), false);
    assert_eq!(view.make_input(0).border_color, Color::Green);
}

#[test]
fn nothing_is_drawn_on_another_tab() {
    let view = PacketDump::new();
    let area = Rect { x: 0, y: 3, width: 120, height: 40 };
    assert!(PacketDump::area_is_enough(area, 0, 0));
    assert_eq!(view.draw(area, 0, 0), None);
}

#[test]
fn packet_view_is_laid_out_in_its_area() {
    let mut view = view_with_records();
    view.update(Action::Down, false);
    view.set_filter_str("10.0.0.1:400".to_string());
    let area = Rect { x: 0, y: 3, width: 120, height: 40 };
    let drawing: Drawing = view.draw(area, 5, 0).expect("a drawing");
    assert_eq!(drawing.table_rect, Rect { x: 0, y: 4, width: 120, height: 39 });
    assert_eq!(drawing.input_rect, Rect { x: 89, y: 5, width: INPUT_SIZE, height: INPUT_HEIGHT });
    assert_eq!((INPUT_SIZE, INPUT_HEIGHT), (30, 3));
    assert_eq!(drawing.scroll_rect, Rect { x: 1, y: 6, width: 118, height: 36 });
    assert_eq!(drawing.cursor, None);
    assert_eq!(drawing.selected, Some(1));
    assert_eq!(drawing.scroll_position, 1);
    assert_eq!(drawing.table.rows, view.get_table_rows_by_packet_type(PacketTypeEnum::All));
    assert_eq!(drawing.table.rows.len(), 3);
    assert_eq!(drawing.table.type_titles, make_type_titles(PacketTypeEnum::All));
    assert_eq!(drawing.table.dump_titles, make_dump_titles(false));
    assert_eq!(drawing.input, view.make_input(0));
    view.set_filter_str("4001".to_string());
    assert_eq!(view.draw(area, 5, 0).expect("a drawing").table.rows.len(), 1);
}

#[test]
fn cursor_is_shown_while_keys_go_to_the_text_field() {
    let mut view = view_with_records();
    view.update(Action::ModeChange(Mode::Input), false);
    let area = Rect { x: 0, y: 3, width: 120, height: 40 };
    assert_eq!(view.draw(area, 5, 0).expect("a drawing").cursor, Some(Position { x: 95, y: 6 }));
    assert_eq!(view.draw(area, 40, 13).expect("a drawing").cursor, Some(Position { x: 117, y: 6 }));
    assert_eq!(view.draw(area, 3, 13).expect("a drawing").cursor, Some(Position { x: 90, y: 6 }));
    assert_eq!(view.draw(area, 40, 13).expect("a drawing").input.scroll, 13);
}

#[test]
fn scrollbar_has_no_room_in_a_low_area() {
    let view = view_with_records();
    let area = Rect { x: 2, y: 0, width: 31, height: 3 };
    assert!(PacketDump::area_is_enough(area, 0, 0));
    let drawing = view.draw(area, 0, 0).expect("a drawing");
    assert_eq!(drawing.table_rect, Rect { x: 2, y: 1, width: 31, height: 2 });
    assert_eq!(drawing.input_rect, Rect { x: 0, y: 2, width: 30, height: 3 });
    assert_eq!(drawing.scroll_rect, Rect { x: 0, y: 0, width: 0, height: 0 });
    let area = Rect { x: 2, y: 0, width: 31, height: 4 };
    assert_eq!(
        view.draw(area, 0, 0).expect("a drawing").scroll_rect,
        Rect { x: 3, y: 3, width: 29, height: 0 }
    );
}

#[test]
fn text_field_is_cut_at_the_edge_of_sixteen_bits() {
    let view = view_with_records();
    let area = Rect { x: 0, y: 65532, width: 65535, height: 2 };
    assert!(PacketDump::area_is_enough(area, 0, 0));
    let drawing = view.draw(area, 0, 0).expect("a drawing");
    assert_eq!(drawing.input_rect, Rect { x: 65504, y: 65534, width: 30, height: 1 });
    assert_eq!(drawing.table_rect, Rect { x: 0, y: 65533, width: 65535, height: 1 });
}

#[test]
fn small_areas_are_not_enough() {
    let good = Rect { x: 0, y: 0, width: 31, height: 2 };
    assert!(PacketDump::area_is_enough(good, 0, 0));
    assert!(!PacketDump::area_is_enough(Rect { width: 30, ..good }, 0, 0));
    assert!(!PacketDump::area_is_enough(Rect { height: 1, ..good }, 0, 0));
    assert!(!PacketDump::area_is_enough(Rect { y: 65533, ..good }, 0, 0));
    assert!(PacketDump::area_is_enough(Rect { y: 65532, ..good }, 0, 0));
    assert!(!PacketDump::area_is_enough(good, 0, 65536));
    assert!(!PacketDump::area_is_enough(good, 65536, 0));
    assert!(PacketDump::area_is_enough(good, 65534, 0));
    assert!(!PacketDump::area_is_enough(good, 65535, 0));
    assert!(PacketDump::area_is_enough(good, 65535, 1));
    let wide = Rect { width: 65535, ..good };
    assert!(PacketDump::area_is_enough(wide, 30, 0));
    assert!(!PacketDump::area_is_enough(wide, 31, 0));
    assert!(PacketDump::area_is_enough(wide, 31, 1));
}
