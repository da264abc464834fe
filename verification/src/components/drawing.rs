use crate::components::packetdump::{bucket, PacketDump, PacketDumpView};
use crate::components::rows::{
    dump_titles_model, filter_entries, rows_view, table_rows, type_titles_model, Table,
};
use crate::enums::{PacketTypeEnum, TabsEnum};
use crate::layout::{rect_inner, rect_inner_model, rect_new, rect_new_model, Position, Rect};
use crate::mode::Mode;
use crate::style::{
    bold_colored, colored, empty_row, plain, push_bold, push_label, push_plain, spans_view,
    Color, SpanView, StyledSpan,
};
use vstd::prelude::*;
use vstd::string::*;

verus! {

/// The width of the text field in cells.
pub const INPUT_SIZE: u16 = 30;

/// The height of the text field in cells.
pub const INPUT_HEIGHT: u16 = 3;

/// How the text field looks.
#[derive(Clone, Debug, PartialEq)]
pub struct InputBox {
    pub text_color: Color,
    pub scroll: u16,
    pub border_color: Color,
    pub input_title: Vec<StyledSpan>,
    pub clear_title: Vec<StyledSpan>,
}

/// What is drawn of the packet view, and where.
#[derive(Clone, Debug, PartialEq)]
pub struct Drawing {
    pub table: Table,
    pub table_rect: Rect,
    pub selected: Option<usize>,
    pub input: InputBox,
    pub input_rect: Rect,
    pub cursor: Option<Position>,
    pub scroll_rect: Rect,
    pub scroll_length: usize,
    pub scroll_position: usize,
}

/// The colour of the border of the text field: green while keys go to it,
/// grey else.
pub open spec fn input_border(mode: Mode) -> Color {
    match mode {
        Mode::Input => Color::Green,
        Mode::Normal => Color::Rgb(100, 100, 100),
    }
}

/// The title of the text field that names the keys into and out of it.
pub open spec fn input_title_model() -> Seq<SpanView> {
    seq![
        plain("|"@),
        bold_colored("i"@, Color::Red),
        colored("nput"@, Color::Yellow),
        plain("/"@),
        bold_colored("ESC"@, Color::Red),
        plain("|"@),
    ]
}

/// The title of the text field that names the key that clears it.
pub open spec fn clear_title_model() -> Seq<SpanView> {
    seq![
        plain("|"@),
        bold_colored("c"@, Color::Red),
        colored("lear"@, Color::Yellow),
        plain("|"@),
    ]
}

/// Whether an area is large enough for the packet view, and the cursor of
/// the text field, `visual_cursor` cells into a text scrolled by `scroll`,
/// stays within 16 bits.
pub open spec fn area_fits(bottom: Rect, visual_cursor: usize, scroll: usize) -> bool {
    &&& bottom.y + 3 <= u16::MAX
    &&& bottom.height >= 2
    &&& bottom.width >= INPUT_SIZE + 1
    &&& scroll <= u16::MAX
    &&& visual_cursor <= u16::MAX
    &&& bottom.width - (INPUT_SIZE + 1) + cursor_column(visual_cursor, scroll) + 1 <= u16::MAX
}

/// How far the cursor stands from the left edge of the text that is seen.
pub open spec fn cursor_column(visual_cursor: usize, scroll: usize) -> int {
    if visual_cursor > scroll {
        visual_cursor - scroll
    } else {
        0
    }
}

/// Where the table goes: the area without its first line.
pub open spec fn table_rect_model(bottom: Rect) -> Rect {
    Rect {
        x: bottom.x,
        y: (bottom.y + 1) as u16,
        width: bottom.width,
        height: (bottom.height - 1) as u16,
    }
}

/// Where the text field goes: at the right edge of the table, one line
/// below its top.
pub open spec fn input_rect_model(bottom: Rect) -> Rect {
    rect_new_model(
        (bottom.width - (INPUT_SIZE + 1)) as u16,
        (bottom.y + 2) as u16,
        INPUT_SIZE,
        INPUT_HEIGHT,
    )
}

/// Where the cursor goes while keys go to the text field.
pub open spec fn cursor_model(bottom: Rect, visual_cursor: usize, scroll: usize) -> Position {
    Position {
        x: (input_rect_model(bottom).x + cursor_column(visual_cursor, scroll) + 1) as u16,
        y: (input_rect_model(bottom).y + 1) as u16,
    }
}

/// Where the scrollbar goes: inside the table without its first line, one
/// cell from each edge.
pub open spec fn scroll_rect_model(bottom: Rect) -> Rect {
    rect_inner_model(
        Rect {
            x: bottom.x,
            y: (bottom.y + 2) as u16,
            width: bottom.width,
            height: (bottom.height - 2) as u16,
        },
        1,
        1,
    )
}

/// Whether `d` is the drawing of a view in an area: the rows that the
/// filter shows of the bucket that is shown, the titles, the text field,
/// the cursor while keys go to the text field, and the scrollbar.
pub open spec fn is_drawing_of(
    d: Drawing,
    v: PacketDumpView,
    bottom: Rect,
    visual_cursor: usize,
    scroll: usize,
) -> bool {
    &&& rows_view(d.table.rows@) == table_rows(
        filter_entries(bucket(v, v.packet_type), v.filter_str),
    )
    &&& spans_view(d.table.type_titles@) == type_titles_model(
        PacketTypeEnum::display_order(),
        v.packet_type,
    )
    &&& spans_view(d.table.dump_titles@) == dump_titles_model(v.dump_paused)
    &&& d.table_rect == table_rect_model(bottom)
    &&& d.selected == v.selected
    &&& d.input.text_color == Color::Green
    &&& d.input.scroll == scroll
    &&& d.input.border_color == input_border(v.mode)
    &&& spans_view(d.input.input_title@) == input_title_model()
    &&& spans_view(d.input.clear_title@) == clear_title_model()
    &&& d.input_rect == input_rect_model(bottom)
    &&& d.cursor == if v.mode == Mode::Input {
        Some(cursor_model(bottom, visual_cursor, scroll))
    } else {
        None
    }
    &&& d.scroll_rect == scroll_rect_model(bottom)
    &&& d.scroll_length == v.scroll_length
    &&& d.scroll_position == v.scroll_position
}

impl PacketDump {
    /// Whether an area is large enough for the packet view to be drawn in
    /// it.
    pub fn area_is_enough(bottom: Rect, visual_cursor: usize, scroll: usize) -> (r: bool)
        ensures
            r == area_fits(bottom, visual_cursor, scroll),
    {
        if bottom.y > u16::MAX - 3 || bottom.height < 2 || bottom.width < INPUT_SIZE + 1 {
            return false;
        }
        if scroll > 0xffff || visual_cursor > 0xffff {
            return false;
        }
        let column: usize = if visual_cursor > scroll {
            visual_cursor - scroll
        } else {
            0
        };
        let left: u16 = bottom.width - (INPUT_SIZE + 1);
        column <= 0xffff && left as u32 + column as u32 + 1 <= 0xffff
    }

    /// How the text field looks, its text scrolled by `scroll` cells.
    pub fn make_input(&self, scroll: u16) -> (input: InputBox)
        ensures
            input.text_color == Color::Green,
            input.scroll == scroll,
            input.border_color == input_border(self@.mode),
            spans_view(input.input_title@) == input_title_model(),
            spans_view(input.clear_title@) == clear_title_model(),
    {
        let mut input_title = empty_row();
        push_plain(&mut input_title, "|");
        push_bold(&mut input_title, String::from_str("i"), Color::Red);
        push_label(&mut input_title, "nput", Color::Yellow);
        push_plain(&mut input_title, "/");
        push_bold(&mut input_title, String::from_str("ESC"), Color::Red);
        push_plain(&mut input_title, "|");
        assert(spans_view(input_title@) =~= input_title_model());
        let mut clear_title = empty_row();
        push_plain(&mut clear_title, "|");
        push_bold(&mut clear_title, String::from_str("c"), Color::Red);
        push_label(&mut clear_title, "lear", Color::Yellow);
        push_plain(&mut clear_title, "|");
        assert(spans_view(clear_title@) =~= clear_title_model());
        InputBox {
            text_color: Color::Green,
            scroll,
            border_color: match self.mode() {
                Mode::Input => Color::Green,
                Mode::Normal => Color::Rgb(100, 100, 100),
            },
            input_title,
            clear_title,
        }
    }

    /// What is drawn of the view in the area `bottom`, the cursor of the
    /// text field standing `visual_cursor` cells into a text scrolled by
    /// `scroll`: nothing unless the packets tab is shown.
    pub fn draw(&self, bottom: Rect, visual_cursor: usize, scroll: usize) -> (r: Option<Drawing>)
        requires
            area_fits(bottom, visual_cursor, scroll),
        ensures
            match r {
                Some(d) => self@.active_tab == TabsEnum::Packets && is_drawing_of(
                    d,
                    self@,
                    bottom,
                    visual_cursor,
                    scroll,
                ),
                None => self@.active_tab != TabsEnum::Packets,
            },
    {
        if self.active_tab() != TabsEnum::Packets {
            return None;
        }
        let mut table_rect = bottom;
        table_rect.y = table_rect.y + 1;
        table_rect.height = table_rect.height - 1;

        let rows = self.get_table_rows_by_packet_type(self.packet_type());
        let table = Self::make_table(rows, self.packet_type(), self.is_paused());

        let input_rect = rect_new(
            table_rect.width - (INPUT_SIZE + 1),
            table_rect.y + 1,
            INPUT_SIZE,
            INPUT_HEIGHT,
        );
        let input = self.make_input(scroll as u16);
        let cursor = match self.mode() {
            Mode::Input => {
                let column: usize = if visual_cursor > scroll {
                    visual_cursor - scroll
                } else {
                    0
                };
                Some(Position { x: input_rect.x + column as u16 + 1, y: input_rect.y + 1 })
            },
            Mode::Normal => None,
        };

        let mut scroll_rect = table_rect;
        scroll_rect.y = scroll_rect.y + 1;
        scroll_rect.height = scroll_rect.height - 1;
        Some(
            Drawing {
                table,
                table_rect,
                selected: self.selected(),
                input,
                input_rect,
                cursor,
                scroll_rect: rect_inner(scroll_rect, 1, 1),
                scroll_length: self.scroll_length(),
                scroll_position: self.scroll_position(),
            },
        )
    }
}

} // verus!
