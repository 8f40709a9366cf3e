use ratcl::{BorderedBox, Columns, Constraint, EmptyWidget, Rect, Rows, Surface, TextBlock, Widget};

fn assert_rows(surface: &Surface, expected: &[&str]) {
    assert_eq!(surface.height() as usize, expected.len());
    for (y, line) in expected.iter().enumerate() {
        let chars: Vec<char> = line.chars().collect();
        assert_eq!(surface.width() as usize, chars.len());
        for (x, ch) in chars.iter().enumerate() {
            assert_eq!(surface.get(x as u16, y as u16), *ch, "cell ({x}, {y})");
        }
    }
}

fn count_non_space(surface: &Surface) -> usize {
    let mut count: usize = 0;
    for y in 0..surface.height() {
        for x in 0..surface.width() {
            if surface.get(x, y) != ' ' {
                count += 1;
            }
        }
    }
    count
}

#[test]
fn creates_rows() {
    let word = "Hello";

    let mut buffer = Surface::new(10, 6);
    let widget = TextBlock::new(word);

    Rows(
        widget.clone(),
        Columns(widget.clone(), widget, Constraint::Percentage(50)),
        Constraint::Length(4),
    )
    .render(Rect::new(0, 0, 10, 6), &mut buffer);

    assert_rows(
        &buffer,
        &[
            "Hello     ",
            "          ",
            "          ",
            "          ",
            "HelloHello",
            "          ",
        ],
    );
}

#[test]
fn creates_columns() {
    let mut buffer = Surface::new(20, 20);
    let widget = BorderedBox;

    Columns(
        widget.clone(),
        Rows(
            widget.clone(),
            Columns(widget.clone(), widget, Constraint::Length(8)),
            Constraint::Length(5),
        ),
        Constraint::Percentage(40),
    )
    .render(Rect::new(0, 0, 20, 20), &mut buffer);

    assert_rows(
        &buffer,
        &[
            "╭──────╮╭──────────╮",
            "│      ││          │",
            "│      ││          │",
            "│      ││          │",
            "│      │╰──────────╯",
            "│      │╭──────╮╭──╮",
            "│      ││      ││  │",
            "│      ││      ││  │",
            "│      ││      ││  │",
            "│      ││      ││  │",
            "│      ││      ││  │",
            "│      ││      ││  │",
            "│      ││      ││  │",
            "│      ││      ││  │",
            "│      ││      ││  │",
            "│      ││      ││  │",
            "│      ││      ││  │",
            "│      ││      ││  │",
            "│      ││      ││  │",
            "╰──────╯╰──────╯╰──╯",
        ],
    );
}

#[test]
fn ratio_half_fills_both_halves() {
    let mut buffer = Surface::new(10, 1);

    Columns(
        TextBlock::new("Hello"),
        TextBlock::new("Hello"),
        Constraint::Ratio(1, 2),
    )
    .render(Rect::new(0, 0, 10, 1), &mut buffer);

    assert_rows(&buffer, &["HelloHello"]);
}

#[test]
fn percentage_takes_complementary_shares() {
    let mut buffer = Surface::new(10, 1);

    Columns(
        TextBlock::new("aaaaaaaaaa"),
        TextBlock::new("bbbbbbbbbb"),
        Constraint::Percentage(30),
    )
    .render(Rect::new(0, 0, 10, 1), &mut buffer);

    assert_rows(&buffer, &["aaabbbbbbb"]);
}

#[test]
fn length_split_regions_are_disjoint_and_cover() {
    let mut buffer = Surface::new(10, 6);

    Rows(
        TextBlock::new("TTTTTTTTTT"),
        TextBlock::new("BBBBBBBBBB"),
        Constraint::Length(4),
    )
    .render(Rect::new(0, 0, 10, 6), &mut buffer);

    assert_rows(
        &buffer,
        &[
            "TTTTTTTTTT",
            "          ",
            "          ",
            "          ",
            "BBBBBBBBBB",
            "          ",
        ],
    );
}

#[test]
fn length_beyond_extent_is_clipped() {
    let mut buffer = Surface::new(10, 6);

    Rows(
        TextBlock::new("Hello"),
        TextBlock::new("World"),
        Constraint::Length(9),
    )
    .render(Rect::new(0, 0, 10, 6), &mut buffer);

    assert_rows(
        &buffer,
        &[
            "Hello     ",
            "          ",
            "          ",
            "          ",
            "          ",
            "          ",
        ],
    );
}

#[test]
fn fill_shares_space_by_weight() {
    let mut buffer = Surface::new(4, 2);

    Rows(TextBlock::new("aa"), TextBlock::new("bb"), Constraint::Fill(1))
        .render(Rect::new(0, 0, 4, 2), &mut buffer);

    assert_rows(&buffer, &["aa  ", "bb  "]);
}

#[test]
fn nested_split_equals_direct_render_into_region() {
    let mut nested = Surface::new(10, 6);
    Rows(
        TextBlock::new("Hello"),
        Columns(BorderedBox, BorderedBox, Constraint::Percentage(50)),
        Constraint::Length(4),
    )
    .render(Rect::new(0, 0, 10, 6), &mut nested);

    let mut direct = Surface::new(10, 6);
    TextBlock::new("Hello").render(Rect::new(0, 0, 10, 4), &mut direct);
    Columns(BorderedBox, BorderedBox, Constraint::Percentage(50))
        .render(Rect::new(0, 4, 10, 2), &mut direct);

    for y in 0..6u16 {
        for x in 0..10u16 {
            assert_eq!(nested.get(x, y), direct.get(x, y), "cell ({x}, {y})");
        }
    }
}

#[test]
fn empty_widget_leaves_region_contents() {
    let mut buffer = Surface::new(10, 6);
    TextBlock::new("XXXXXXXXXX").render(Rect::new(0, 0, 10, 1), &mut buffer);

    Rows(EmptyWidget, TextBlock::new("Hello"), Constraint::Length(4))
        .render(Rect::new(0, 0, 10, 6), &mut buffer);

    assert_rows(
        &buffer,
        &[
            "XXXXXXXXXX",
            "          ",
            "          ",
            "          ",
            "Hello     ",
            "          ",
        ],
    );
}

#[test]
fn empty_widget_draws_nothing() {
    let mut buffer = Surface::new(5, 5);
    EmptyWidget.render(Rect::new(0, 0, 5, 5), &mut buffer);

    for y in 0..5u16 {
        for x in 0..5u16 {
            assert_eq!(buffer.get(x, y), ' ');
        }
    }
}

#[test]
fn text_is_clipped_to_region_width() {
    let mut buffer = Surface::new(3, 1);
    TextBlock::new("Hello").render(Rect::new(0, 0, 3, 1), &mut buffer);

    assert_rows(&buffer, &["Hel"]);
}

#[test]
fn zero_sized_region_renders_nothing() {
    let mut buffer = Surface::new(3, 1);
    TextBlock::new("Hello").render(Rect::new(0, 0, 0, 0), &mut buffer);

    assert_rows(&buffer, &["   "]);
}

#[test]
fn bordered_split_preserves_border_count_and_seam() {
    let mut single = Surface::new(20, 2);
    BorderedBox.render(Rect::new(0, 0, 20, 2), &mut single);
    assert_eq!(count_non_space(&single), 40);

    let mut split = Surface::new(20, 2);
    Columns(BorderedBox, BorderedBox, Constraint::Percentage(40))
        .render(Rect::new(0, 0, 20, 2), &mut split);

    assert_eq!(count_non_space(&split), 40);
    assert_eq!(split.get(7, 0), '╮');
    assert_eq!(split.get(8, 0), '╭');
    assert_eq!(split.get(7, 1), '╯');
    assert_eq!(split.get(8, 1), '╰');
}

#[test]
fn surface_set_and_get_round_trip() {
    let mut surface = Surface::new(4, 3);
    assert_eq!(surface.width(), 4);
    assert_eq!(surface.height(), 3);

    surface.set(2, 1, 'z');
    assert_eq!(surface.get(2, 1), 'z');
    assert_eq!(surface.get(1, 1), ' ');
    assert_eq!(surface.get(2, 0), ' ');
}
