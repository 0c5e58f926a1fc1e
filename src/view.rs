use vstd::prelude::*;

verus! {

/// One record of the feed, as the viewer shows it.
#[derive(Clone, Debug)]
pub struct DisplayItem {
    pub title: String,
}

/// A rectangle of terminal cells.
#[derive(Clone, Copy, Debug, PartialEq, Eq, Structural)]
pub struct Region {
    pub x: u16,
    pub y: u16,
    pub width: u16,
    pub height: u16,
}

impl Region {
    /// What is left of `self` with `margin` cells taken off every side: an
    /// empty rectangle at the origin where the margins do not fit, and the
    /// bottom edge cut at the last addressable row.
    pub open spec fn inset(self, margin: u16) -> Region {
        if self.width < 2 * margin || self.height < 2 * margin {
            Region { x: 0, y: 0, width: 0, height: 0 }
        } else {
            let bottom = if self.y + self.height - margin <= u16::MAX {
                self.y + self.height - margin
            } else {
                u16::MAX as int
            };
            Region {
                x: (self.x + margin) as u16,
                y: (self.y + margin) as u16,
                width: (self.width - 2 * margin) as u16,
                height: (bottom - (self.y + margin)) as u16,
            }
        }
    }
}

/// Relies on tui's `Layout::split`, for a vertical layout with a margin and a
/// single `Constraint::Min`. `Rect::inner` takes the margin off (or gives an
/// empty rectangle where it does not fit); the solver's hard constraints then
/// fix the one region's left edge, width and top to those of the inner area,
/// and its bottom is stretched to the inner area's (saturated) bottom edge, so
/// `min_height` never changes the result. The bounds keep `Rect::inner` from
/// overflowing and the solver's constraints satisfiable: the inner area's
/// right edge must fit in a `u16`, or `split` panics.
#[verifier::external_body]
fn split_single(area: Region, margin: u16, min_height: u16) -> (r: Region)
    requires
        margin <= 32767,
        area.x as int + margin as int <= u16::MAX as int,
        area.y as int + margin as int <= u16::MAX as int,
        area.x as int + area.width as int <= u16::MAX as int,
    ensures
        r == area.inset(margin),
{
    let rect = tui::layout::Rect { x: area.x, y: area.y, width: area.width, height: area.height };
    let parts = tui::layout::Layout::default().direction(tui::layout::Direction::Vertical).margin(
        margin,
    ).constraints([tui::layout::Constraint::Min(min_height)].as_ref()).split(rect);
    Region { x: parts[0].x, y: parts[0].y, width: parts[0].width, height: parts[0].height }
}

/// The region the table is drawn in: the whole of `area` but a margin of one
/// cell on every side.
pub fn body_region(area: Region) -> (r: Region)
    requires
        area.x < u16::MAX,
        area.y < u16::MAX,
        area.x as int + area.width as int <= u16::MAX as int,
    ensures
        r == area.inset(1),
{
    split_single(area, 1, 1)
}

/// What one frame shows: a bordered block with a title, a header row and one
/// row per display item.
#[derive(Clone, Debug)]
pub struct TableView {
    pub block_title: String,
    pub header: String,
    pub rows: Vec<String>,
}

/// The table for `items`, in their order: one row holding each title, under
/// the header "Title", in a block titled "[ Reddit feed ]".
pub fn build_table(items: &Vec<DisplayItem>) -> (r: TableView)
    ensures
        r.block_title@ == "[ Reddit feed ]"@,
        r.header@ == "Title"@,
        r.rows@.len() == items@.len(),
        forall|i: int| 0 <= i < items@.len() ==> #[trigger] r.rows@[i]@ == items@[i].title@,
{
    let mut rows: Vec<String> = Vec::new();
    let mut i: usize = 0;
    while i < items.len()
        invariant
            0 <= i <= items@.len(),
            rows@.len() == i,
            forall|j: int| 0 <= j < i ==> #[trigger] rows@[j]@ == items@[j].title@,
        decreases items@.len() - i,
    {
        rows.push(items[i].title.clone());
        i = i + 1;
    }
    TableView {
        block_title: "[ Reddit feed ]".to_string(),
        header: "Title".to_string(),
        rows,
    }
}

} // verus!
