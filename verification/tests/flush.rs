use sloth::context::Context;
use sloth::mat4::FIXED_ONE;
use sloth::output::{FlushBody, FlushOutput};

fn two_cell_context() -> Context<1> {
    let mut c: Context<1> = Context::blank(false, FIXED_ONE);
    c.set_size(2, 1);
    c.clear();
    c.frame_buffer[0] = ('A', (10, 20, 30));
    c.frame_buffer[1] = ('B', (40, 50, 60));
    c
}

#[test]
fn plain_flush_concatenates_characters() {
    let c = two_cell_context();
    let out: FlushOutput = c.flush(false, false, (0, 0, 0));
    // Interactive mode asks the sink to move its cursor home first.
    assert!(out.move_home);
    match out.body {
        FlushBody::Plain(t) => {
            let s: String = t.into_iter().collect();
            assert_eq!(s, "AB\n");
        }
        _ => panic!("expected the plain encoding"),
    }
}

#[test]
fn plain_flush_ignores_webify_flag() {
    let c = two_cell_context();
    match c.flush(false, true, (9, 9, 9)).body {
        FlushBody::Plain(t) => {
            let s: String = t.into_iter().collect();
            assert_eq!(s, "AB\n");
        }
        _ => panic!("expected the plain encoding"),
    }
}

#[test]
fn image_mode_flush_does_not_move_cursor() {
    let mut c: Context<1> = Context::blank(true, FIXED_ONE);
    c.set_size(2, 1);
    c.clear();
    let out = c.flush(false, false, (0, 0, 0));
    assert!(!out.move_home);
    match out.body {
        FlushBody::Plain(t) => {
            // Two grid cells plus the one line-terminator cell, blank.
            let s: String = t.into_iter().collect();
            assert_eq!(s, "   \n");
        }
        _ => panic!("expected the plain encoding"),
    }
}

#[test]
fn styled_flush_keeps_colors_over_background() {
    let c = two_cell_context();
    let out = c.flush(true, false, (1, 2, 3));
    assert!(out.move_home);
    match out.body {
        FlushBody::Styled(cells) => {
            assert_eq!(cells.len(), 2);
            assert_eq!(cells[0].ch, 'A');
            assert_eq!(cells[0].fg, (10, 20, 30));
            assert_eq!(cells[0].bg, (1, 2, 3));
            assert_eq!(cells[1].ch, 'B');
            assert_eq!(cells[1].fg, (40, 50, 60));
            assert_eq!(cells[1].bg, (1, 2, 3));
        }
        _ => panic!("expected the styled encoding"),
    }
}

#[test]
fn markup_flush_embeds_rgb_and_character() {
    let mut c: Context<1> = Context::blank(false, FIXED_ONE);
    c.set_size(1, 1);
    c.clear();
    c.frame_buffer[0] = ('A', (1, 22, 255));
    match c.flush(true, true, (0, 0, 0)).body {
        FlushBody::Markup(t) => {
            let s: String = t.into_iter().collect();
            assert_eq!(s, "<span style=\"color:rgb(1,22,255)\">A");
        }
        _ => panic!("expected the markup encoding"),
    }
}

#[test]
fn markup_flush_concatenates_row_major() {
    let c = two_cell_context();
    match c.flush(true, true, (0, 0, 0)).body {
        FlushBody::Markup(t) => {
            let s: String = t.into_iter().collect();
            assert_eq!(
                s,
                "<span style=\"color:rgb(10,20,30)\">A<span style=\"color:rgb(40,50,60)\">B"
            );
        }
        _ => panic!("expected the markup encoding"),
    }
}

#[test]
fn markup_flush_renders_extreme_components() {
    let mut c: Context<1> = Context::blank(false, FIXED_ONE);
    c.set_size(1, 1);
    c.clear();
    c.frame_buffer[0] = ('z', (0, 100, 9));
    match c.flush(true, true, (0, 0, 0)).body {
        FlushBody::Markup(t) => {
            let s: String = t.into_iter().collect();
            assert_eq!(s, "<span style=\"color:rgb(0,100,9)\">z");
        }
        _ => panic!("expected the markup encoding"),
    }
}

#[test]
fn flush_on_empty_buffers() {
    let c: Context<1> = Context::blank(false, FIXED_ONE);
    match c.flush(false, false, (0, 0, 0)).body {
        FlushBody::Plain(t) => {
            let s: String = t.into_iter().collect();
            assert_eq!(s, "\n");
        }
        _ => panic!("expected the plain encoding"),
    }
    match c.flush(true, false, (0, 0, 0)).body {
        FlushBody::Styled(cells) => assert!(cells.is_empty()),
        _ => panic!("expected the styled encoding"),
    }
    match c.flush(true, true, (0, 0, 0)).body {
        FlushBody::Markup(t) => assert!(t.is_empty()),
        _ => panic!("expected the markup encoding"),
    }
}

#[test]
fn markup_flush_renders_digit_boundaries() {
    let mut c: Context<1> = Context::blank(false, FIXED_ONE);
    c.set_size(1, 1);
    c.clear();
    c.frame_buffer[0] = ('#', (9, 10, 99));
    match c.flush(true, true, (0, 0, 0)).body {
        FlushBody::Markup(t) => {
            let s: String = t.into_iter().collect();
            assert_eq!(s, "<span style=\"color:rgb(9,10,99)\">#");
        }
        _ => panic!("expected the markup encoding"),
    }
}

#[test]
fn flush_leaves_context_unchanged() {
    let c = two_cell_context();
    let _ = c.flush(true, true, (0, 0, 0));
    let _ = c.flush(true, false, (0, 0, 0));
    let _ = c.flush(false, false, (0, 0, 0));
    assert_eq!(c.frame_buffer[0], ('A', (10, 20, 30)));
    assert_eq!(c.frame_buffer[1], ('B', (40, 50, 60)));
    assert_eq!(c.width, 2);
    assert_eq!(c.height, 1);
}
