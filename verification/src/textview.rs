//! Posting of a text view to the graphical abstraction manager.
//!
//! What a view and its cursor hold besides what posting looks at, above all the
//! text, is left to the user of this module: it is of type `R` in a view and of
//! type `C` in a cursor.
use vstd::prelude::*;
use crate::callbacks::CID;

verus! {

/// Size of the buffer that a text view is lent in.
pub const LEND_BUFFER_SIZE: usize = 4096;

/// Where the cursor of a posted view starts.
pub const POST_CURSOR_X: i16 = 37;

/// Where the cursor of a posted view starts.
pub const POST_CURSOR_Y: i16 = 5;

/// What is to be done with a view.
#[derive(Clone, Copy, Debug, PartialEq, Eq)]
pub enum TextOp {
    Nop,
    Render,
}

/// A point on the screen.
#[derive(Clone, Copy, Debug, PartialEq, Eq)]
pub struct Point {
    pub x: i16,
    pub y: i16,
}

/// A rectangle on the screen.
#[derive(Clone, Copy, Debug, PartialEq, Eq)]
pub struct Rectangle {
    pub tl: Point,
    pub br: Point,
}

/// Where text goes next.
#[derive(Clone, Copy, Debug, PartialEq, Eq)]
pub struct Cursor<C> {
    pub pt: Point,
    pub rest: C,
}

/// A view of text.
#[derive(Clone, Copy, Debug, PartialEq, Eq)]
pub struct TextView<C, R> {
    pub operation: TextOp,
    pub cursor: Cursor<C>,
    pub bounds_computed: Option<Rectangle>,
    pub rest: R,
}

impl<C, R> TextView<C, R> {
    /// Sets what is to be done with the view.
    pub fn set_op(&mut self, op: TextOp)
        ensures
            *final(self) == (TextView { operation: op, ..*old(self) }),
    {
        self.operation = op;
    }

    /// Sets the bounds that the text was found to need.
    pub fn set_bounds_computed(&mut self, bounds: Option<Rectangle>)
        ensures
            *final(self) == (TextView { bounds_computed: bounds, ..*old(self) }),
    {
        self.bounds_computed = bounds;
    }
}

/// A view on its way to the manager: the connection, the size of the buffer,
/// and the view that goes into it.
#[derive(Debug, PartialEq, Eq)]
pub struct Lend<'a, C, R> {
    pub connection: CID,
    pub buffer_size: usize,
    pub view: &'a TextView<C, R>,
}

/// What the manager found out about a view.
#[derive(Clone, Copy, Debug, PartialEq, Eq)]
pub struct TextViewResult<C> {
    pub bounds_computed: Option<Rectangle>,
    pub cursor: Cursor<C>,
}

/// What is in the buffer when it comes back.
#[derive(Clone, Copy, Debug, PartialEq, Eq)]
pub enum Returned<C> {
    TextViewResult(TextViewResult<C>),
    /// Anything else; the manager never leaves it.
    Unexpected,
}

/// A view that is to be rendered, with its cursor at the start. All else in it
/// is as it was.
pub open spec fn for_rendering<C, R>(view: TextView<C, R>) -> TextView<C, R> {
    TextView {
        operation: TextOp::Render,
        cursor: Cursor { pt: Point { x: POST_CURSOR_X, y: POST_CURSOR_Y }, ..view.cursor },
        ..view
    }
}

/// Posts a view: gives what to lend to the manager. It is not a drawing, for
/// the update is neither guaranteed nor immediate: the manager first has to
/// check that the view may be updated, and then decides when the screen is.
pub fn post_textview<'a, C, R>(gam_cid: CID, tv: &'a mut TextView<C, R>) -> (lend: Lend<'a, C, R>)
    ensures
        *final(tv) == for_rendering(*old(tv)),
        lend.connection == gam_cid,
        lend.buffer_size == LEND_BUFFER_SIZE,
        lend.buffer_size == 4096,
        *lend.view == for_rendering(*old(tv)),
{
    tv.set_op(TextOp::Render);
    tv.cursor.pt.x = POST_CURSOR_X;
    tv.cursor.pt.y = POST_CURSOR_Y;
    Lend { connection: gam_cid, buffer_size: LEND_BUFFER_SIZE, view: &*tv }
}

/// Takes the bounds and the cursor that came back from the manager over into
/// the view, which then has nothing left to be done. The rest of the view stays
/// as it was.
pub fn textview_posted<C, R>(tv: &mut TextView<C, R>, returned: Returned<C>)
    requires
        returned is TextViewResult,
    ensures
        *final(tv) == (TextView {
            operation: TextOp::Nop,
            cursor: returned->TextViewResult_0.cursor,
            bounds_computed: returned->TextViewResult_0.bounds_computed,
            rest: old(tv).rest,
        }),
{
    match returned {
        Returned::TextViewResult(result) => {
            tv.set_bounds_computed(result.bounds_computed);
            tv.cursor = result.cursor;
        },
        Returned::Unexpected => {},
    }
    tv.set_op(TextOp::Nop);
}

/// A posted view differs from what it was in its operation and the point of its
/// cursor alone.
pub proof fn law_posted_view<C, R>(view: TextView<C, R>)
    ensures
        for_rendering(view).operation == TextOp::Render,
        for_rendering(view).cursor.pt.x == 37,
        for_rendering(view).cursor.pt.y == 5,
        for_rendering(view).cursor.rest == view.cursor.rest,
        for_rendering(view).bounds_computed == view.bounds_computed,
        for_rendering(view).rest == view.rest,
{
}

} // verus!
