use xous_core::textview::{
    post_textview, textview_posted, Cursor, Point, Rectangle, Returned, TextOp, TextView,
    TextViewResult,
};

#[test]
fn a_view_is_posted_and_comes_back() {
    let bounds = Rectangle { tl: Point { x: 1, y: 2 }, br: Point { x: 30, y: 40 } };
    let mut tv = TextView {
        operation: TextOp::Nop,
        cursor: Cursor { pt: Point { x: -1, y: -1 }, rest: 15u32 },
        bounds_computed: Some(bounds),
        rest: "hello".to_string(),
    };
    let lend = post_textview(11, &mut tv);
    assert_eq!(lend.connection, 11);
    assert_eq!(lend.buffer_size, 4096);
    assert_eq!(lend.view.operation, TextOp::Render);
    assert_eq!(lend.view.cursor, Cursor { pt: Point { x: 37, y: 5 }, rest: 15 });
    assert_eq!(lend.view.bounds_computed, Some(bounds));
    assert_eq!(lend.view.rest, "hello");
    assert_eq!(tv.operation, TextOp::Render);
    assert_eq!(tv.cursor.pt, Point { x: 37, y: 5 });
    assert_eq!(tv.bounds_computed, Some(bounds));
    assert_eq!(tv.rest, "hello");

    let cursor = Cursor { pt: Point { x: 8, y: 9 }, rest: 16 };
    let result = TextViewResult { bounds_computed: None, cursor };
    textview_posted(&mut tv, Returned::TextViewResult(result));
    let rest = "hello".to_string();
    assert_eq!(tv, TextView { operation: TextOp::Nop, cursor, bounds_computed: None, rest });
}

#[test]
fn setters_of_a_view() {
    let mut tv = TextView {
        operation: TextOp::Nop,
        cursor: Cursor { pt: Point { x: 0, y: 0 }, rest: () },
        bounds_computed: None,
        rest: (),
    };
    tv.set_op(TextOp::Render);
    let bounds = Rectangle { tl: Point { x: 0, y: 0 }, br: Point { x: 1, y: 1 } };
    tv.set_bounds_computed(Some(bounds));
    assert_eq!(tv.operation, TextOp::Render);
    assert_eq!(tv.bounds_computed, Some(bounds));
}
