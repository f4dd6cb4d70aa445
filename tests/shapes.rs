use geometrical_shapes::{
    Canvas, Circle, Color, Displayable, Drawable, Line, Pixel, Point, Rectangle, ShapeError,
    Triangle,
};

fn px(x: i32, y: i32, color: Color) -> Pixel {
    Pixel { x, y, color }
}

fn coords(canvas: &Canvas) -> Vec<(i32, i32)> {
    canvas.pixels().iter().map(|p| (p.x, p.y)).collect()
}

fn one_color(pixels: &[Pixel]) -> bool {
    pixels.iter().all(|p| p.color == pixels[0].color)
}

#[test]
fn point_random_stays_in_bounds() {
    for _ in 0..500 {
        let p = Point::random(7, 3).unwrap();
        assert!(0 <= p.x && p.x < 7);
        assert!(0 <= p.y && p.y < 3);
    }
}

#[test]
fn point_random_uses_the_whole_range() {
    let mut seen_x = false;
    let mut seen_y = false;
    for _ in 0..200 {
        let p = Point::random(1000, 1000).unwrap();
        seen_x |= p.x != 0;
        seen_y |= p.y != 0;
    }
    assert!(seen_x && seen_y);
}

#[test]
fn point_random_rejects_empty_ranges() {
    assert_eq!(Point::random(0, 5), Err(ShapeError::InvalidBounds));
    assert_eq!(Point::random(5, 0), Err(ShapeError::InvalidBounds));
    assert_eq!(Point::random(-3, 5), Err(ShapeError::InvalidBounds));
    assert_eq!(Point::random(5, -1), Err(ShapeError::InvalidBounds));
}

#[test]
fn point_draws_one_pixel() {
    let mut canvas = Canvas::new();
    Point::new(3, -4).draw(&mut canvas);
    assert_eq!(coords(&canvas), vec![(3, -4)]);
}

#[test]
fn horizontal_line_writes_four_pixels() {
    let c = Color::rgb(10, 20, 30);
    let line = Line::with_color(&Point::new(0, 0), &Point::new(4, 0), c);
    let mut canvas = Canvas::new();
    line.draw(&mut canvas);
    assert_eq!(
        canvas.pixels().clone(),
        vec![px(0, 0, c), px(1, 0, c), px(2, 0, c), px(3, 0, c)]
    );
}

#[test]
fn random_color_line_is_uniform() {
    let line = Line::new(&Point::new(0, 0), &Point::new(4, 0));
    let mut canvas = Canvas::new();
    line.draw(&mut canvas);
    assert_eq!(coords(&canvas), vec![(0, 0), (1, 0), (2, 0), (3, 0)]);
    assert!(canvas.pixels().iter().all(|p| p.color == line.color));
}

#[test]
fn coincident_endpoints_write_one_pixel() {
    let c = Color::rgb(1, 2, 3);
    let line = Line::with_color(&Point::new(2, 2), &Point::new(2, 2), c);
    let mut canvas = Canvas::new();
    line.draw(&mut canvas);
    assert_eq!(canvas.pixels().clone(), vec![px(2, 2, c)]);
}

#[test]
fn shallow_line_rounds_to_nearest() {
    let c = Color::rgb(0, 0, 0);
    let mut canvas = Canvas::new();
    Line::with_color(&Point::new(0, 0), &Point::new(3, 1), c).draw(&mut canvas);
    assert_eq!(coords(&canvas), vec![(0, 0), (1, 0), (2, 1)]);
}

#[test]
fn line_towards_negative_coordinates() {
    let c = Color::rgb(0, 0, 0);
    let mut canvas = Canvas::new();
    Line::with_color(&Point::new(0, 0), &Point::new(-4, -2), c).draw(&mut canvas);
    assert_eq!(coords(&canvas), vec![(0, 0), (-1, -1), (-2, -1), (-3, -2)]);
}

#[test]
fn steep_line_steps_along_y() {
    let c = Color::rgb(0, 0, 0);
    let mut canvas = Canvas::new();
    Line::with_color(&Point::new(1, 5), &Point::new(2, 1), c).draw(&mut canvas);
    assert_eq!(coords(&canvas), vec![(1, 5), (1, 4), (2, 3), (2, 2)]);
}

#[test]
fn line_near_the_largest_coordinate() {
    let c = Color::rgb(0, 0, 0);
    let mut canvas = Canvas::new();
    Line::with_color(&Point::new(i32::MAX - 2, 0), &Point::new(i32::MAX, 0), c)
        .draw(&mut canvas);
    assert_eq!(coords(&canvas), vec![(i32::MAX - 2, 0), (i32::MAX - 1, 0)]);
}

#[test]
fn line_random_bounds() {
    for _ in 0..200 {
        let l = Line::random(5, 9).unwrap();
        assert!(0 <= l.p1.x && l.p1.x < 5 && 0 <= l.p1.y && l.p1.y < 9);
        assert!(0 <= l.p2.x && l.p2.x < 5 && 0 <= l.p2.y && l.p2.y < 9);
    }
    assert_eq!(Line::random(0, 9).err(), Some(ShapeError::InvalidBounds));
}

#[test]
fn triangle_draws_three_edges_in_one_color() {
    let t = Triangle::new(&Point::new(0, 0), &Point::new(4, 0), &Point::new(0, 4));
    let c = Color::rgb(200, 100, 50);
    let edges = t.edges(c);
    assert_eq!(edges.len(), 3);
    assert_eq!((edges[0].p1, edges[0].p2), (Point::new(0, 0), Point::new(4, 0)));
    assert_eq!((edges[1].p1, edges[1].p2), (Point::new(4, 0), Point::new(0, 4)));
    assert_eq!((edges[2].p1, edges[2].p2), (Point::new(0, 4), Point::new(0, 0)));
    assert!(edges.iter().all(|e| e.color == c));

    let mut expected = Canvas::new();
    for e in &edges {
        e.draw(&mut expected);
    }
    let mut canvas = Canvas::new();
    t.draw_with(c, &mut canvas);
    assert_eq!(canvas.pixels(), expected.pixels());
    assert_eq!(canvas.pixels().len(), 12);

    let mut random = Canvas::new();
    t.draw(&mut random);
    assert_eq!(coords(&random), coords(&canvas));
    assert!(one_color(random.pixels()));
}

#[test]
fn rectangle_draws_a_closed_loop() {
    let r = Rectangle::new(&Point::new(0, 0), &Point::new(4, 2));
    let c = Color::rgb(9, 9, 9);
    let edges = r.edges(c);
    assert_eq!(edges.len(), 4);
    let corners = [Point::new(0, 0), Point::new(0, 2), Point::new(4, 2), Point::new(4, 0)];
    for i in 0..4 {
        assert_eq!(edges[i].p1, corners[i]);
        assert_eq!(edges[i].p2, corners[(i + 1) % 4]);
        assert_eq!(edges[i].color, c);
    }
    let mut canvas = Canvas::new();
    r.draw(&mut canvas);
    assert_eq!(
        coords(&canvas),
        vec![
            (0, 0),
            (0, 1),
            (0, 2),
            (1, 2),
            (2, 2),
            (3, 2),
            (4, 2),
            (4, 1),
            (4, 0),
            (3, 0),
            (2, 0),
            (1, 0)
        ]
    );
    assert!(one_color(canvas.pixels()));
}

#[test]
fn circle_draws_361_segments_in_a_closed_loop() {
    let circle = Circle::new(&Point::new(5, 5), 3);
    assert!(circle.is_well_formed());
    let c = Color::rgb(0, 255, 0);
    let segs = circle.segments(c);
    assert_eq!(segs.len(), 361);
    assert_eq!(segs[0].p1, segs[360].p2);
    assert_eq!(segs[0].p1, Point::new(8, 5));
    assert_eq!(segs[0].p2, Point::new(8, 5));
    for i in 1..361 {
        assert_eq!(segs[i].p1, segs[i - 1].p2);
    }
    assert!(segs.iter().all(|s| s.color == c));
    assert_eq!(segs[45].p2, Point::new(7, 7));
    assert_eq!(segs[90].p2, Point::new(5, 8));
    assert_eq!(segs[180].p2, Point::new(2, 5));
    assert_eq!(segs[270].p2, Point::new(5, 2));
    assert_eq!(segs[300].p2, Point::new(7, 2));

    let mut canvas = Canvas::new();
    circle.draw(&mut canvas);
    assert!(one_color(canvas.pixels()));
    assert_eq!(canvas.pixels()[0].x, 8);
    assert_eq!(canvas.pixels()[0].y, 5);
}

#[test]
fn zero_radius_circle_stays_on_its_center() {
    let circle = Circle::new(&Point::new(-2, 7), 0);
    let mut canvas = Canvas::new();
    circle.draw_with(Color::rgb(1, 1, 1), &mut canvas);
    assert_eq!(canvas.pixels().len(), 361);
    assert!(canvas.pixels().iter().all(|p| (p.x, p.y) == (-2, 7)));
}

#[test]
fn circle_well_formedness() {
    assert!(!Circle::new(&Point::new(0, 0), -1).is_well_formed());
    assert!(!Circle::new(&Point::new(i32::MAX - 1, 0), 2).is_well_formed());
    assert!(!Circle::new(&Point::new(0, i32::MIN + 1), 2).is_well_formed());
    assert!(Circle::new(&Point::new(i32::MAX - 2, 0), 2).is_well_formed());
}

#[test]
fn circle_random_bounds() {
    for _ in 0..200 {
        let c = Circle::random(10, 4).unwrap();
        assert!(0 <= c.center.x && c.center.x < 10);
        assert!(0 <= c.center.y && c.center.y < 4);
        assert!(0 <= c.radius && c.radius < 4);
    }
    assert_eq!(Circle::random(10, 0).err(), Some(ShapeError::InvalidBounds));
    assert_eq!(Circle::random(-1, 10).err(), Some(ShapeError::InvalidBounds));
}

#[test]
fn same_color_gives_same_writes_on_two_sinks() {
    let c = Color::rgb(4, 5, 6);
    let shapes_drawn = |sink: &mut Canvas| {
        Triangle::new(&Point::new(1, 1), &Point::new(9, 3), &Point::new(4, 8)).draw_with(c, sink);
        Rectangle::new(&Point::new(2, 2), &Point::new(6, 5)).draw_with(c, sink);
        Circle::new(&Point::new(20, 20), 6).draw_with(c, sink);
    };
    let mut first = Canvas::new();
    let mut second = Canvas::new();
    second.display(100, 100, Color::rgb(0, 0, 0));
    shapes_drawn(&mut first);
    shapes_drawn(&mut second);
    assert_eq!(first.pixels()[..], second.pixels()[1..]);
}

#[test]
fn validity_of_each_shape() {
    let p = Point::new(i32::MAX, i32::MIN);
    assert!(p.is_valid());
    assert!(Line::with_color(&p, &p, Color::rgb(0, 0, 0)).is_valid());
    assert!(Triangle::new(&p, &p, &p).is_valid());
    assert!(Rectangle::new(&p, &p).is_valid());
    assert!(!Circle::new(&p, 1).is_valid());
    assert!(Circle::new(&Point::new(0, 0), 1).is_valid());
}

#[test]
fn diagonal_line_in_its_own_color() {
    let line = Line::new(&Point::new(4, 0), &Point::new(0, 4));
    let mut canvas = Canvas::new();
    line.draw(&mut canvas);
    assert_eq!(coords(&canvas), vec![(4, 0), (3, 1), (2, 2), (1, 3)]);
    assert!(canvas.pixels().iter().all(|p| p.color == line.color));
}

#[test]
fn line_drawn_twice_writes_the_same() {
    let line = Line::new(&Point::new(-3, 2), &Point::new(5, -1));
    let mut first = Canvas::new();
    let mut second = Canvas::new();
    line.draw(&mut first);
    line.draw(&mut second);
    assert_eq!(first.pixels(), second.pixels());
    assert!(first.pixels().iter().all(|p| p.color == line.color));
}
