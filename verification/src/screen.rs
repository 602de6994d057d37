//! Screen layout management.
//!
//! Models the physical arrangement of screens across machines, so that it is
//! known which edge leads to which peer.
use vstd::prelude::*;

verus! {

/// How far apart two edges may be and still count as touching, exclusive.
pub const THRESHOLD: i32 = 5;

/// How many pixels from an edge a crossing starts.
pub const EDGE_ZONE: i32 = 3;

/// A length as the signed number with the same bits. Lengths below 2^31 stay
/// what they are.
pub open spec fn signed_length(len: u32) -> int {
    if len < 0x8000_0000 {
        len as int
    } else {
        len - 0x1_0000_0000
    }
}

/// Whether a coordinate can be held.
pub open spec fn fits(value: int) -> bool {
    i32::MIN <= value <= i32::MAX
}

/// A length as the signed number with the same bits.
fn to_signed_length(len: u32) -> (res: i32)
    ensures
        res == signed_length(len),
{
    if len < 0x8000_0000 {
        len as i32
    } else {
        (len as i64 - 0x1_0000_0000) as i32
    }
}

/// A screen's position in the virtual layout.
#[derive(Debug, Clone, Copy, PartialEq, Eq, Structural)]
pub struct ScreenRect {
    /// Top-left X in virtual coordinate space.
    pub x: i32,
    /// Top-left Y in virtual coordinate space.
    pub y: i32,
    /// Width in pixels.
    pub width: u32,
    /// Height in pixels.
    pub height: u32,
}

impl ScreenRect {
    /// The X right behind the rectangle.
    pub open spec fn right_edge(self) -> int {
        self.x + signed_length(self.width)
    }

    /// The Y right below the rectangle.
    pub open spec fn bottom_edge(self) -> int {
        self.y + signed_length(self.height)
    }

    /// The X right behind the rectangle.
    pub fn right(&self) -> (res: i32)
        requires
            fits(self.right_edge()),
        ensures
            res == self.right_edge(),
    {
        self.x + to_signed_length(self.width)
    }

    /// The Y right below the rectangle.
    pub fn bottom(&self) -> (res: i32)
        requires
            fits(self.bottom_edge()),
        ensures
            res == self.bottom_edge(),
    {
        self.y + to_signed_length(self.height)
    }
}

/// Which edge of a screen the cursor hit.
#[derive(Debug, Clone, Copy, PartialEq, Eq, Structural)]
pub enum Edge {
    Left,
    Right,
    Top,
    Bottom,
}

impl Edge {
    /// The edge on the other side.
    pub open spec fn opposite(self) -> Edge {
        match self {
            Edge::Left => Edge::Right,
            Edge::Right => Edge::Left,
            Edge::Top => Edge::Bottom,
            Edge::Bottom => Edge::Top,
        }
    }
}

/// Information about a single screen (local or remote).
#[derive(Debug)]
pub struct ScreenInfo {
    pub id: String,
    pub name: String,
    pub rect: ScreenRect,
    /// The peer ID that owns this screen (None = local).
    pub peer_id: Option<String>,
    pub width: u32,
    pub height: u32,
    pub dpi: u32,
}

/// A screen, with its texts as sequences.
pub struct ScreenModel {
    pub id: Seq<char>,
    pub name: Seq<char>,
    pub rect: ScreenRect,
    pub peer_id: Option<Seq<char>>,
    pub width: u32,
    pub height: u32,
    pub dpi: u32,
}

impl View for ScreenInfo {
    type V = ScreenModel;

    open spec fn view(&self) -> ScreenModel {
        ScreenModel {
            id: self.id@,
            name: self.name@,
            rect: self.rect,
            peer_id: match self.peer_id {
                Some(text) => Some(text@),
                None => None,
            },
            width: self.width,
            height: self.height,
            dpi: self.dpi,
        }
    }
}

impl Clone for ScreenInfo {
    fn clone(&self) -> (res: ScreenInfo)
        ensures
            res@ == self@,
    {
        ScreenInfo {
            id: self.id.clone(),
            name: self.name.clone(),
            rect: self.rect,
            peer_id: match &self.peer_id {
                Some(text) => Some(text.clone()),
                None => None,
            },
            width: self.width,
            height: self.height,
            dpi: self.dpi,
        }
    }
}

/// Whether two ranges overlap, each given by its start and length.
pub open spec fn overlap(start1: i32, len1: u32, start2: i32, len2: u32) -> bool {
    start1 < start2 + signed_length(len2) && start2 < start1 + signed_length(len1)
}

/// Checks if two ranges overlap (for screen adjacency detection).
pub fn ranges_overlap(start1: i32, len1: u32, start2: i32, len2: u32) -> (res: bool)
    requires
        fits(start1 + signed_length(len1)),
        fits(start2 + signed_length(len2)),
    ensures
        res == overlap(start1, len1, start2, len2),
{
    let end1: i32 = start1 + to_signed_length(len1);
    let end2: i32 = start2 + to_signed_length(len2);
    start1 < end2 && start2 < end1
}

/// How far the candidate's near edge lies behind the source's edge.
pub open spec fn gap(source: ScreenRect, candidate: ScreenRect, edge: Edge) -> int {
    match edge {
        Edge::Right => candidate.x - source.right_edge(),
        Edge::Left => source.x - candidate.right_edge(),
        Edge::Bottom => candidate.y - source.bottom_edge(),
        Edge::Top => source.y - candidate.bottom_edge(),
    }
}

/// Whether the two rectangles overlap along the given edge.
pub open spec fn faces(source: ScreenRect, candidate: ScreenRect, edge: Edge) -> bool {
    match edge {
        Edge::Right | Edge::Left => overlap(
            source.y,
            source.height,
            candidate.y,
            candidate.height,
        ),
        Edge::Bottom | Edge::Top => overlap(source.x, source.width, candidate.x, candidate.width),
    }
}

/// Whether the candidate lies at the given edge of the source. Small gaps and
/// misalignments are allowed.
pub open spec fn adjacent(source: ScreenRect, candidate: ScreenRect, edge: Edge) -> bool {
    &&& -THRESHOLD < gap(source, candidate, edge) < THRESHOLD
    &&& faces(source, candidate, edge)
}

/// Whether every coordinate on the way to `adjacent` can be held.
pub open spec fn adjacency_fits(source: ScreenRect, candidate: ScreenRect, edge: Edge) -> bool {
    &&& match edge {
        Edge::Right => fits(source.right_edge()),
        Edge::Left => fits(candidate.right_edge()),
        Edge::Bottom => fits(source.bottom_edge()),
        Edge::Top => fits(candidate.bottom_edge()),
    }
    &&& i32::MIN < gap(source, candidate, edge) <= i32::MAX
    &&& -THRESHOLD < gap(source, candidate, edge) < THRESHOLD ==> match edge {
        Edge::Right | Edge::Left => fits(source.bottom_edge()) && fits(candidate.bottom_edge()),
        Edge::Bottom | Edge::Top => fits(source.right_edge()) && fits(candidate.right_edge()),
    }
}

/// Whether the candidate lies at the given edge of the source.
fn is_adjacent(source: &ScreenRect, candidate: &ScreenRect, edge: Edge) -> (res: bool)
    requires
        adjacency_fits(*source, *candidate, edge),
    ensures
        res == adjacent(*source, *candidate, edge),
{
    let distance: i32 = match edge {
        Edge::Right => candidate.x - source.right(),
        Edge::Left => source.x - candidate.right(),
        Edge::Bottom => candidate.y - source.bottom(),
        Edge::Top => source.y - candidate.bottom(),
    };
    if distance <= -THRESHOLD || THRESHOLD <= distance {
        return false;
    }
    match edge {
        Edge::Right | Edge::Left => ranges_overlap(
            source.y,
            source.height,
            candidate.y,
            candidate.height,
        ),
        Edge::Bottom | Edge::Top => ranges_overlap(
            source.x,
            source.width,
            candidate.x,
            candidate.width,
        ),
    }
}

/// Whether a sum of coordinates can be held.
fn coordinate_fits(value: i64) -> (res: bool)
    ensures
        res == fits(value as int),
{
    -0x8000_0000 <= value && value <= 0x7fff_ffff
}

/// Whether every coordinate on the way to `is_adjacent` can be held.
fn is_adjacency_fitting(source: &ScreenRect, candidate: &ScreenRect, edge: Edge) -> (res: bool)
    ensures
        res == adjacency_fits(*source, *candidate, edge),
{
    let source_right: i64 = source.x as i64 + to_signed_length(source.width) as i64;
    let source_bottom: i64 = source.y as i64 + to_signed_length(source.height) as i64;
    let right: i64 = candidate.x as i64 + to_signed_length(candidate.width) as i64;
    let bottom: i64 = candidate.y as i64 + to_signed_length(candidate.height) as i64;
    let (near, distance): (i64, i64) = match edge {
        Edge::Right => (source_right, candidate.x as i64 - source_right),
        Edge::Left => (right, source.x as i64 - right),
        Edge::Bottom => (source_bottom, candidate.y as i64 - source_bottom),
        Edge::Top => (bottom, source.y as i64 - bottom),
    };
    if !coordinate_fits(near) || !coordinate_fits(distance) || distance == -0x8000_0000 {
        return false;
    }
    if distance <= -5 || 5 <= distance {
        return true;
    }
    match edge {
        Edge::Right | Edge::Left => coordinate_fits(source_bottom) && coordinate_fits(bottom),
        Edge::Bottom | Edge::Top => coordinate_fits(source_right) && coordinate_fits(right),
    }
}

/// Whether the cursor is at the given edge of a rectangle, or beyond it.
pub open spec fn at_edge(rect: ScreenRect, edge: Edge, x: i32, y: i32) -> bool {
    match edge {
        Edge::Right => x >= rect.right_edge() - EDGE_ZONE,
        Edge::Left => x <= rect.x + EDGE_ZONE,
        Edge::Bottom => y >= rect.bottom_edge() - EDGE_ZONE,
        Edge::Top => y <= rect.y + EDGE_ZONE,
    }
}

/// Whether the limits of a rectangle's edge zones can be held.
pub open spec fn edge_zones_fit(rect: ScreenRect) -> bool {
    &&& fits(rect.right_edge())
    &&& fits(rect.right_edge() - EDGE_ZONE)
    &&& fits(rect.x + EDGE_ZONE)
    &&& fits(rect.bottom_edge())
    &&& fits(rect.bottom_edge() - EDGE_ZONE)
    &&& fits(rect.y + EDGE_ZONE)
}

/// A part of a screen's extent: `pos / len`.
#[derive(Debug, Clone, Copy, PartialEq, Eq, Structural)]
pub struct Fraction {
    pub pos: i64,
    pub len: u32,
}

impl Fraction {
    /// The start of the extent.
    pub open spec fn start() -> Fraction {
        Fraction { pos: 0, len: 1 }
    }

    /// The end of the extent.
    pub open spec fn end() -> Fraction {
        Fraction { pos: 1, len: 1 }
    }

    /// The part of `len` that `pos` is, from start to end. An extent of no
    /// length has only its two ends.
    pub open spec fn along(pos: int, len: u32) -> Fraction {
        if len == 0 {
            if pos <= 0 {
                Fraction::start()
            } else {
                Fraction::end()
            }
        } else if pos < 0 {
            Fraction { pos: 0, len }
        } else if pos > len {
            Fraction { pos: len as i64, len }
        } else {
            Fraction { pos: pos as i64, len }
        }
    }

    /// Whether this is a number from zero to one.
    pub open spec fn is_normalized(self) -> bool {
        0 < self.len && 0 <= self.pos <= self.len
    }
}

/// The part of `len` that `pos` is, from start to end.
fn fraction_along(pos: i64, len: u32) -> (res: Fraction)
    ensures
        res == Fraction::along(pos as int, len),
{
    if len == 0 {
        if pos <= 0 {
            Fraction { pos: 0, len: 1 }
        } else {
            Fraction { pos: 1, len: 1 }
        }
    } else if pos < 0 {
        Fraction { pos: 0, len }
    } else if pos > len as i64 {
        Fraction { pos: len as i64, len }
    } else {
        Fraction { pos, len }
    }
}

/// Where the cursor enters a screen.
#[derive(Debug, Clone, Copy, PartialEq, Eq, Structural)]
pub struct EntryPoint {
    pub x: Fraction,
    pub y: Fraction,
}

/// Where the cursor enters a screen of the given rectangle when it leaves
/// another one by `edge`: at the opposite side, and along it at the place in
/// the layout where the cursor is.
pub open spec fn entry_point(edge: Edge, x: i32, y: i32, rect: ScreenRect) -> EntryPoint {
    match edge {
        Edge::Right => EntryPoint {
            x: Fraction::start(),
            y: Fraction::along(y - rect.y, rect.height),
        },
        Edge::Left => EntryPoint { x: Fraction::end(), y: Fraction::along(y - rect.y, rect.height) },
        Edge::Bottom => EntryPoint {
            x: Fraction::along(x - rect.x, rect.width),
            y: Fraction::start(),
        },
        Edge::Top => EntryPoint { x: Fraction::along(x - rect.x, rect.width), y: Fraction::end() },
    }
}

/// The first index from `from` on at which `wanted` holds.
pub open spec fn first_index(
    screens: Seq<ScreenModel>,
    from: int,
    wanted: spec_fn(ScreenModel) -> bool,
) -> Option<int>
    decreases screens.len() - from,
{
    if from < 0 || from >= screens.len() {
        None
    } else if wanted(screens[from]) {
        Some(from)
    } else {
        first_index(screens, from + 1, wanted)
    }
}

/// The first screen with the given ID.
pub open spec fn screen_index(screens: Seq<ScreenModel>, id: Seq<char>) -> Option<int> {
    first_index(screens, 0, |s: ScreenModel| s.id == id)
}

/// The first screen, other than those with the given ID, that lies at the
/// given edge of the first screen with that ID.
pub open spec fn neighbor_index(screens: Seq<ScreenModel>, id: Seq<char>, edge: Edge) -> Option<
    int,
> {
    match screen_index(screens, id) {
        Some(source) => first_index(
            screens,
            0,
            |s: ScreenModel| s.id != id && adjacent(screens[source].rect, s.rect, edge),
        ),
        None => None,
    }
}

/// Whether every coordinate on the way to the neighbor can be held.
pub open spec fn neighbor_fits(screens: Seq<ScreenModel>, id: Seq<char>, edge: Edge) -> bool {
    screen_index(screens, id) matches Some(source) ==> forall|i: int|
        0 <= i < screens.len() && (#[trigger] screens[i]).id != id && (neighbor_index(
            screens,
            id,
            edge,
        ) matches Some(found) ==> i <= found) ==> adjacency_fits(
            screens[source].rect,
            screens[i].rect,
            edge,
        )
}

/// The neighbor at the given edge, if the cursor is at that edge.
pub open spec fn crossing_at(
    screens: Seq<ScreenModel>,
    id: Seq<char>,
    edge: Edge,
    x: i32,
    y: i32,
) -> Option<int> {
    match screen_index(screens, id) {
        Some(source) => if at_edge(screens[source].rect, edge, x, y) {
            neighbor_index(screens, id, edge)
        } else {
            None
        },
        None => None,
    }
}

/// The edge by which the cursor leaves the screen, and the neighbor it enters.
/// At a corner the right edge comes first, then left, bottom and top.
pub open spec fn crossing(screens: Seq<ScreenModel>, id: Seq<char>, x: i32, y: i32) -> Option<
    (Edge, int),
> {
    match crossing_at(screens, id, Edge::Right, x, y) {
        Some(i) => Some((Edge::Right, i)),
        None => match crossing_at(screens, id, Edge::Left, x, y) {
            Some(i) => Some((Edge::Left, i)),
            None => match crossing_at(screens, id, Edge::Bottom, x, y) {
                Some(i) => Some((Edge::Bottom, i)),
                None => match crossing_at(screens, id, Edge::Top, x, y) {
                    Some(i) => Some((Edge::Top, i)),
                    None => None,
                },
            },
        },
    }
}

/// Whether every coordinate on the way to the crossing can be held.
pub open spec fn crossing_fits(screens: Seq<ScreenModel>, id: Seq<char>, x: i32, y: i32) -> bool {
    screen_index(screens, id) matches Some(source) ==> {
        let rect = screens[source].rect;
        let right = crossing_at(screens, id, Edge::Right, x, y);
        let left = crossing_at(screens, id, Edge::Left, x, y);
        let bottom = crossing_at(screens, id, Edge::Bottom, x, y);
        &&& edge_zones_fit(rect)
        &&& at_edge(rect, Edge::Right, x, y) ==> neighbor_fits(screens, id, Edge::Right)
        &&& right is None && at_edge(rect, Edge::Left, x, y) ==> neighbor_fits(
            screens,
            id,
            Edge::Left,
        )
        &&& right is None && left is None && at_edge(rect, Edge::Bottom, x, y) ==> neighbor_fits(
            screens,
            id,
            Edge::Bottom,
        )
        &&& right is None && left is None && bottom is None && at_edge(rect, Edge::Top, x, y)
            ==> neighbor_fits(screens, id, Edge::Top)
    }
}

/// The full screen layout across all machines.
#[derive(Debug)]
pub struct ScreenLayout {
    pub screens: Vec<ScreenInfo>,
}

impl View for ScreenLayout {
    type V = Seq<ScreenModel>;

    open spec fn view(&self) -> Seq<ScreenModel> {
        Seq::new(self.screens@.len(), |i: int| self.screens@[i]@)
    }
}

impl Clone for ScreenLayout {
    fn clone(&self) -> (res: ScreenLayout)
        ensures
            res@ == self@,
    {
        let mut screens: Vec<ScreenInfo> = Vec::new();
        let mut i: usize = 0;
        while i < self.screens.len()
            invariant
                i <= self.screens@.len(),
                screens@.len() == i,
                forall|j: int| 0 <= j < i ==> (#[trigger] screens@[j])@ == self.screens@[j]@,
            decreases self.screens@.len() - i,
        {
            screens.push(self.screens[i].clone());
            i = i + 1;
        }
        let res: ScreenLayout = ScreenLayout { screens };
        assert(res@ =~= self@);
        res
    }
}

impl ScreenLayout {
    /// A layout without screens.
    pub fn new() -> (layout: ScreenLayout)
        ensures
            layout@ == Seq::<ScreenModel>::empty(),
    {
        let layout: ScreenLayout = ScreenLayout { screens: Vec::new() };
        assert(layout@ =~= Seq::<ScreenModel>::empty());
        layout
    }

    /// The index of the first screen with the given ID.
    fn find_screen(&self, screen_id: &str) -> (res: Option<usize>)
        ensures
            match res {
                Some(i) => i < self.screens@.len() && screen_index(self@, screen_id@) == Some(
                    i as int,
                ),
                None => screen_index(self@, screen_id@) is None,
            },
    {
        let wanted: String = screen_id.to_owned();
        let ghost test = |s: ScreenModel| s.id == screen_id@;
        let mut i: usize = 0;
        while i < self.screens.len()
            invariant
                i <= self.screens@.len(),
                wanted@ == screen_id@,
                test == (|s: ScreenModel| s.id == screen_id@),
                screen_index(self@, screen_id@) == first_index(self@, i as int, test),
            decreases self.screens@.len() - i,
        {
            if self.screens[i].id == wanted {
                return Some(i);
            }
            i = i + 1;
        }
        None
    }

    /// The rectangle of the first screen with the given ID.
    pub fn screen_rect(&self, screen_id: &str) -> (rect: Option<ScreenRect>)
        ensures
            rect == match screen_index(self@, screen_id@) {
                Some(i) => Some(self@[i].rect),
                None => None,
            },
    {
        match self.find_screen(screen_id) {
            Some(i) => Some(self.screens[i].rect),
            None => None,
        }
    }

    /// Finds which screen (if any) is adjacent to the given edge of the given screen.
    pub fn find_neighbor(&self, screen_id: &str, edge: Edge) -> (res: Option<&ScreenInfo>)
        requires
            neighbor_fits(self@, screen_id@, edge),
        ensures
            match neighbor_index(self@, screen_id@, edge) {
                Some(i) => res == Some(&self.screens@[i]),
                None => res is None,
            },
    {
        let source: usize = match self.find_screen(screen_id) {
            Some(source) => source,
            None => return None,
        };
        let rect: ScreenRect = self.screens[source].rect;
        let wanted: String = screen_id.to_owned();
        let ghost test = |s: ScreenModel|
            s.id != screen_id@ && adjacent(self@[source as int].rect, s.rect, edge);
        let mut i: usize = 0;
        while i < self.screens.len()
            invariant
                i <= self.screens@.len(),
                source < self.screens@.len(),
                rect == self@[source as int].rect,
                wanted@ == screen_id@,
                screen_index(self@, screen_id@) == Some(source as int),
                neighbor_fits(self@, screen_id@, edge),
                test == (|s: ScreenModel|
                    s.id != screen_id@ && adjacent(self@[source as int].rect, s.rect, edge)),
                neighbor_index(self@, screen_id@, edge) == first_index(self@, i as int, test),
            decreases self.screens@.len() - i,
        {
            proof {
                lemma_first_index(self@, i as int, test);
                assert(self@[i as int] == self.screens@[i as int]@);
            }
            if !(self.screens[i].id == wanted) && is_adjacent(&rect, &self.screens[i].rect, edge) {
                return Some(&self.screens[i]);
            }
            i = i + 1;
        }
        None
    }

    /// Whether `find_neighbor` can hold every coordinate that it computes.
    pub fn can_find_neighbor(&self, screen_id: &str, edge: Edge) -> (res: bool)
        ensures
            res == neighbor_fits(self@, screen_id@, edge),
    {
        let source: usize = match self.find_screen(screen_id) {
            Some(source) => source,
            None => return true,
        };
        let rect: ScreenRect = self.screens[source].rect;
        let wanted: String = screen_id.to_owned();
        let ghost test = |s: ScreenModel|
            s.id != screen_id@ && adjacent(self@[source as int].rect, s.rect, edge);
        let mut i: usize = 0;
        while i < self.screens.len()
            invariant
                i <= self.screens@.len(),
                source < self.screens@.len(),
                rect == self@[source as int].rect,
                wanted@ == screen_id@,
                screen_index(self@, screen_id@) == Some(source as int),
                forall|j: int|
                    0 <= j < i && (#[trigger] self@[j]).id != screen_id@ ==> adjacency_fits(
                        rect,
                        self@[j].rect,
                        edge,
                    ),
                test == (|s: ScreenModel|
                    s.id != screen_id@ && adjacent(self@[source as int].rect, s.rect, edge)),
                neighbor_index(self@, screen_id@, edge) == first_index(self@, i as int, test),
            decreases self.screens@.len() - i,
        {
            proof {
                lemma_first_index(self@, i as int, test);
                assert(self@[i as int] == self.screens@[i as int]@);
            }
            if !(self.screens[i].id == wanted) {
                if !is_adjacency_fitting(&rect, &self.screens[i].rect, edge) {
                    return false;
                }
                if is_adjacent(&rect, &self.screens[i].rect, edge) {
                    return true;
                }
            }
            i = i + 1;
        }
        true
    }

    /// Detects which edge (if any) the cursor is at on the local screen.
    /// Returns the edge and the neighbor screen if applicable.
    pub fn detect_edge(&self, local_screen_id: &str, cursor_x: i32, cursor_y: i32) -> (res: Option<
        (Edge, &ScreenInfo),
    >)
        requires
            crossing_fits(self@, local_screen_id@, cursor_x, cursor_y),
        ensures
            match crossing(self@, local_screen_id@, cursor_x, cursor_y) {
                Some((edge, i)) => res == Some((edge, &self.screens@[i])),
                None => res is None,
            },
    {
        let source: usize = match self.find_screen(local_screen_id) {
            Some(source) => source,
            None => return None,
        };
        let rect: ScreenRect = self.screens[source].rect;
        assert(rect == self@[source as int].rect);
        if cursor_x >= rect.right() - EDGE_ZONE {
            if let Some(neighbor) = self.find_neighbor(local_screen_id, Edge::Right) {
                return Some((Edge::Right, neighbor));
            }
        }
        if cursor_x <= rect.x + EDGE_ZONE {
            if let Some(neighbor) = self.find_neighbor(local_screen_id, Edge::Left) {
                return Some((Edge::Left, neighbor));
            }
        }
        if cursor_y >= rect.bottom() - EDGE_ZONE {
            if let Some(neighbor) = self.find_neighbor(local_screen_id, Edge::Bottom) {
                return Some((Edge::Bottom, neighbor));
            }
        }
        if cursor_y <= rect.y + EDGE_ZONE {
            if let Some(neighbor) = self.find_neighbor(local_screen_id, Edge::Top) {
                return Some((Edge::Top, neighbor));
            }
        }
        None
    }

    /// Whether `detect_edge` can hold every coordinate that it computes.
    pub fn can_detect_edge(&self, local_screen_id: &str, cursor_x: i32, cursor_y: i32) -> (res:
        bool)
        ensures
            res == crossing_fits(self@, local_screen_id@, cursor_x, cursor_y),
    {
        let source: usize = match self.find_screen(local_screen_id) {
            Some(source) => source,
            None => return true,
        };
        let rect: ScreenRect = self.screens[source].rect;
        assert(rect == self@[source as int].rect);
        let right: i64 = rect.x as i64 + to_signed_length(rect.width) as i64;
        let bottom: i64 = rect.y as i64 + to_signed_length(rect.height) as i64;
        if !(coordinate_fits(right) && coordinate_fits(right - 3) && coordinate_fits(
            rect.x as i64 + 3,
        ) && coordinate_fits(bottom) && coordinate_fits(bottom - 3) && coordinate_fits(
            rect.y as i64 + 3,
        )) {
            return false;
        }
        if cursor_x >= rect.right() - EDGE_ZONE {
            if !self.can_find_neighbor(local_screen_id, Edge::Right) {
                return false;
            }
            if self.find_neighbor(local_screen_id, Edge::Right).is_some() {
                return true;
            }
        }
        if cursor_x <= rect.x + EDGE_ZONE {
            if !self.can_find_neighbor(local_screen_id, Edge::Left) {
                return false;
            }
            if self.find_neighbor(local_screen_id, Edge::Left).is_some() {
                return true;
            }
        }
        if cursor_y >= rect.bottom() - EDGE_ZONE {
            if !self.can_find_neighbor(local_screen_id, Edge::Bottom) {
                return false;
            }
            if self.find_neighbor(local_screen_id, Edge::Bottom).is_some() {
                return true;
            }
        }
        if cursor_y <= rect.y + EDGE_ZONE {
            if !self.can_find_neighbor(local_screen_id, Edge::Top) {
                return false;
            }
        }
        true
    }

    /// Maps the cursor position from one screen's edge to the neighbor's
    /// corresponding position, as a part of the neighbor's width and height.
    pub fn map_cursor_to_neighbor(
        &self,
        _source_id: &str,
        edge: Edge,
        cursor_x: i32,
        cursor_y: i32,
        neighbor: &ScreenInfo,
    ) -> (res: EntryPoint)
        ensures
            res == entry_point(edge, cursor_x, cursor_y, neighbor.rect),
    {
        let rect: ScreenRect = neighbor.rect;
        match edge {
            Edge::Right => EntryPoint {
                x: Fraction { pos: 0, len: 1 },
                y: fraction_along(cursor_y as i64 - rect.y as i64, rect.height),
            },
            Edge::Left => EntryPoint {
                x: Fraction { pos: 1, len: 1 },
                y: fraction_along(cursor_y as i64 - rect.y as i64, rect.height),
            },
            Edge::Bottom => EntryPoint {
                x: fraction_along(cursor_x as i64 - rect.x as i64, rect.width),
                y: Fraction { pos: 0, len: 1 },
            },
            Edge::Top => EntryPoint {
                x: fraction_along(cursor_x as i64 - rect.x as i64, rect.width),
                y: Fraction { pos: 1, len: 1 },
            },
        }
    }
}

/// Whether a rectangle lies within half a billion pixels of the origin.
pub open spec fn is_ordinary(rect: ScreenRect) -> bool {
    &&& -0x2000_0000 <= rect.x <= 0x2000_0000
    &&& -0x2000_0000 <= rect.y <= 0x2000_0000
    &&& rect.width <= 0x2000_0000
    &&& rect.height <= 0x2000_0000
}

/// In a layout of ordinary size every coordinate can be held.
pub proof fn law_ordinary_layouts_fit(screens: Seq<ScreenModel>, id: Seq<char>, x: i32, y: i32)
    requires
        forall|i: int| 0 <= i < screens.len() ==> is_ordinary((#[trigger] screens[i]).rect),
    ensures
        forall|edge: Edge| #[trigger] neighbor_fits(screens, id, edge),
        crossing_fits(screens, id, x, y),
{
    lemma_first_index(screens, 0, |s: ScreenModel| s.id == id);
    assert forall|edge: Edge| #[trigger] neighbor_fits(screens, id, edge) by {}
}

/// The first index is where the search starts or behind it, `wanted` holds
/// there and nowhere in front of it; without one, `wanted` holds nowhere.
pub proof fn lemma_first_index(
    screens: Seq<ScreenModel>,
    from: int,
    wanted: spec_fn(ScreenModel) -> bool,
)
    requires
        0 <= from,
    ensures
        match first_index(screens, from, wanted) {
            Some(i) => {
                &&& from <= i < screens.len()
                &&& wanted(screens[i])
                &&& forall|j: int| from <= j < i ==> !wanted(#[trigger] screens[j])
            },
            None => forall|j: int| from <= j < screens.len() ==> !wanted(#[trigger] screens[j]),
        },
    decreases screens.len() - from,
{
    if from < screens.len() && !wanted(screens[from]) {
        lemma_first_index(screens, from + 1, wanted);
    }
}

/// A neighbor is another screen than the source, and lies at the edge that was
/// asked for.
pub proof fn law_neighbor_is_another_screen(screens: Seq<ScreenModel>, id: Seq<char>, edge: Edge)
    ensures
        neighbor_index(screens, id, edge) matches Some(i) ==> {
            &&& 0 <= i < screens.len()
            &&& screens[i].id != id
            &&& screen_index(screens, id) matches Some(source)
            &&& 0 <= source < screens.len()
            &&& screens[source].id == id
            &&& adjacent(screens[source].rect, screens[i].rect, edge)
        },
{
    lemma_first_index(screens, 0, |s: ScreenModel| s.id == id);
    if let Some(source) = screen_index(screens, id) {
        lemma_first_index(
            screens,
            0,
            |s: ScreenModel| s.id != id && adjacent(screens[source].rect, s.rect, edge),
        );
    }
}

/// If another screen lies at an edge of the source, some neighbor is found there.
pub proof fn law_touching_screen_gives_neighbor(
    screens: Seq<ScreenModel>,
    id: Seq<char>,
    edge: Edge,
    candidate: int,
)
    requires
        0 <= candidate < screens.len(),
        screens[candidate].id != id,
        screen_index(screens, id) matches Some(source) && adjacent(
            screens[source].rect,
            screens[candidate].rect,
            edge,
        ),
    ensures
        neighbor_index(screens, id, edge) matches Some(i) && i <= candidate,
{
    let source = screen_index(screens, id)->Some_0;
    lemma_first_index(
        screens,
        0,
        |s: ScreenModel| s.id != id && adjacent(screens[source].rect, s.rect, edge),
    );
}

/// Adjacency goes both ways: what lies to the right of a screen has that screen
/// to its left, and likewise for the other edges.
pub proof fn law_adjacency_is_mutual(a: ScreenRect, b: ScreenRect, edge: Edge)
    ensures
        adjacent(a, b, edge) == adjacent(b, a, edge.opposite()),
{
}

/// A crossing happens only at an edge, and only into another screen that lies
/// there.
pub proof fn law_crossing_leads_to_neighbor(screens: Seq<ScreenModel>, id: Seq<char>, x: i32, y: i32)
    ensures
        crossing(screens, id, x, y) matches Some((edge, i)) ==> {
            &&& 0 <= i < screens.len()
            &&& screens[i].id != id
            &&& screen_index(screens, id) matches Some(source)
            &&& at_edge(screens[source].rect, edge, x, y)
            &&& adjacent(screens[source].rect, screens[i].rect, edge)
        },
{
    if let Some((edge, i)) = crossing(screens, id, x, y) {
        law_neighbor_is_another_screen(screens, id, edge);
    }
}

/// A cursor that is at no edge stays where it is.
pub proof fn law_no_crossing_inside(screens: Seq<ScreenModel>, id: Seq<char>, x: i32, y: i32)
    requires
        screen_index(screens, id) matches Some(source) && {
            let rect = screens[source].rect;
            &&& rect.x + EDGE_ZONE < x < rect.right_edge() - EDGE_ZONE
            &&& rect.y + EDGE_ZONE < y < rect.bottom_edge() - EDGE_ZONE
        },
    ensures
        crossing(screens, id, x, y) is None,
{
}

/// The cursor enters at the side opposite to the one by which it left, and the
/// entry point is normalized.
pub proof fn law_entry_is_opposite(edge: Edge, x: i32, y: i32, rect: ScreenRect)
    ensures
        edge is Right ==> entry_point(edge, x, y, rect).x == (Fraction { pos: 0, len: 1 }),
        edge is Left ==> entry_point(edge, x, y, rect).x == (Fraction { pos: 1, len: 1 }),
        edge is Bottom ==> entry_point(edge, x, y, rect).y == (Fraction { pos: 0, len: 1 }),
        edge is Top ==> entry_point(edge, x, y, rect).y == (Fraction { pos: 1, len: 1 }),
        ({
            let entry = entry_point(edge, x, y, rect);
            &&& 0 < entry.x.len && 0 <= entry.x.pos <= entry.x.len
            &&& 0 < entry.y.len && 0 <= entry.y.pos <= entry.y.len
        }),
        entry_point(edge, x, y, rect).x.is_normalized(),
        entry_point(edge, x, y, rect).y.is_normalized(),
{
}

/// The cursor keeps its place: where the neighbor lies beside it, the entry
/// point times the neighbor's extent, seen from the neighbor's corner, is the
/// cursor's own place along the edge. Beyond an end of the neighbor it enters
/// at that end.
pub proof fn law_entry_keeps_the_place(edge: Edge, x: i32, y: i32, rect: ScreenRect)
    requires
        rect.width > 0,
        rect.height > 0,
    ensures
        ({
            let entry = entry_point(edge, x, y, rect);
            if edge is Left || edge is Right {
                &&& entry.y.len == rect.height
                &&& rect.y <= y <= rect.y + rect.height ==> rect.y + entry.y.pos == y
                &&& y < rect.y ==> entry.y.pos == 0
                &&& y > rect.y + rect.height ==> entry.y.pos == rect.height
            } else {
                &&& entry.x.len == rect.width
                &&& rect.x <= x <= rect.x + rect.width ==> rect.x + entry.x.pos == x
                &&& x < rect.x ==> entry.x.pos == 0
                &&& x > rect.x + rect.width ==> entry.x.pos == rect.width
            }
        }),
{
}

/// On a neighbor without extent along the edge, the cursor enters at the end
/// of it that is nearer to the cursor.
pub proof fn law_entry_to_an_empty_screen(edge: Edge, x: i32, y: i32, rect: ScreenRect)
    ensures
        ({
            let entry = entry_point(edge, x, y, rect);
            if edge is Left || edge is Right {
                rect.height == 0 ==> entry.y.len == 1 && (entry.y.pos == 0 <==> y <= rect.y)
            } else {
                rect.width == 0 ==> entry.x.len == 1 && (entry.x.pos == 0 <==> x <= rect.x)
            }
        }),
{
}

/// A rectangle ends where its length says; a length is taken as the signed
/// 32-bit number with the same bits.
pub proof fn law_edges_of_a_rectangle(rect: ScreenRect)
    ensures
        rect.width < 0x8000_0000 ==> rect.right_edge() == rect.x + rect.width,
        rect.height < 0x8000_0000 ==> rect.bottom_edge() == rect.y + rect.height,
        rect.width >= 0x8000_0000 ==> rect.right_edge() == rect.x + rect.width - 0x1_0000_0000,
        rect.height >= 0x8000_0000 ==> rect.bottom_edge() == rect.y + rect.height - 0x1_0000_0000,
{
}

/// Whether a rectangle has pixels in the row `y`.
pub open spec fn in_row(rect: ScreenRect, y: int) -> bool {
    rect.y <= y < rect.y + rect.height
}

/// Whether a rectangle has pixels in the column `x`.
pub open spec fn in_column(rect: ScreenRect, x: int) -> bool {
    rect.x <= x < rect.x + rect.width
}

/// Two screens lie side by side exactly when less than five pixels are between
/// the edges that face each other, and they have a row of pixels in common.
/// They lie on top of each other exactly when the same holds of a column.
pub proof fn law_adjacent_screens_share_a_row_or_column(a: ScreenRect, b: ScreenRect)
    requires
        0 < a.width < 0x8000_0000,
        0 < a.height < 0x8000_0000,
        0 < b.width < 0x8000_0000,
        0 < b.height < 0x8000_0000,
    ensures
        adjacent(a, b, Edge::Right) <==> (-5 < b.x - (a.x + a.width) < 5 && exists|y: int|
            #[trigger] in_row(a, y) && in_row(b, y)),
        adjacent(a, b, Edge::Left) <==> (-5 < a.x - (b.x + b.width) < 5 && exists|y: int|
            #[trigger] in_row(a, y) && in_row(b, y)),
        adjacent(a, b, Edge::Bottom) <==> (-5 < b.y - (a.y + a.height) < 5 && exists|x: int|
            #[trigger] in_column(a, x) && in_column(b, x)),
        adjacent(a, b, Edge::Top) <==> (-5 < a.y - (b.y + b.height) < 5 && exists|x: int|
            #[trigger] in_column(a, x) && in_column(b, x)),
{
    let y: int = if a.y > b.y {
        a.y as int
    } else {
        b.y as int
    };
    let x: int = if a.x > b.x {
        a.x as int
    } else {
        b.x as int
    };
    assert(in_row(a, y) && in_row(b, y) <==> a.y < b.y + b.height && b.y < a.y + a.height);
    assert(in_column(a, x) && in_column(b, x) <==> a.x < b.x + b.width && b.x < a.x + a.width);
}

/// The same of every rectangle, one without pixels included: along the edge
/// each of the two starts before the other ends.
pub proof fn law_adjacent_screens_start_before_the_other_ends(a: ScreenRect, b: ScreenRect)
    ensures
        adjacent(a, b, Edge::Right) <==> (-5 < b.x - a.right_edge() < 5 && a.y < b.bottom_edge()
            && b.y < a.bottom_edge()),
        adjacent(a, b, Edge::Left) <==> (-5 < a.x - b.right_edge() < 5 && a.y < b.bottom_edge()
            && b.y < a.bottom_edge()),
        adjacent(a, b, Edge::Bottom) <==> (-5 < b.y - a.bottom_edge() < 5 && a.x < b.right_edge()
            && b.x < a.right_edge()),
        adjacent(a, b, Edge::Top) <==> (-5 < a.y - b.bottom_edge() < 5 && a.x < b.right_edge()
            && b.x < a.right_edge()),
{
}

/// A screen may slide along the edge of its neighbor: as long as a row or
/// column of pixels stays common, it stays a neighbor.
pub proof fn law_sliding_keeps_adjacency(
    a: ScreenRect,
    b: ScreenRect,
    moved: ScreenRect,
    edge: Edge,
    common: int,
)
    requires
        0 < a.width < 0x8000_0000,
        0 < a.height < 0x8000_0000,
        0 < b.width < 0x8000_0000,
        0 < b.height < 0x8000_0000,
        adjacent(a, b, edge),
        moved.width == b.width && moved.height == b.height,
        edge is Left || edge is Right ==> moved.x == b.x && in_row(a, common) && in_row(
            moved,
            common,
        ),
        edge is Top || edge is Bottom ==> moved.y == b.y && in_column(a, common) && in_column(
            moved,
            common,
        ),
    ensures
        adjacent(a, moved, edge),
{
}

/// The neighbor is the first of the screens with another ID that lie at the
/// edge; there is none only if no such screen lies there.
pub proof fn law_first_touching_screen_is_the_neighbor(
    screens: Seq<ScreenModel>,
    id: Seq<char>,
    edge: Edge,
    source: int,
)
    requires
        0 <= source < screens.len(),
        screens[source].id == id,
        forall|j: int| 0 <= j < source ==> (#[trigger] screens[j]).id != id,
    ensures
        screen_index(screens, id) == Some(source),
        match neighbor_index(screens, id, edge) {
            Some(i) => {
                &&& 0 <= i < screens.len()
                &&& screens[i].id != id
                &&& adjacent(screens[source].rect, screens[i].rect, edge)
                &&& forall|j: int|
                    0 <= j < i ==> (#[trigger] screens[j]).id == id || !adjacent(
                        screens[source].rect,
                        screens[j].rect,
                        edge,
                    )
            },
            None => forall|j: int|
                0 <= j < screens.len() ==> (#[trigger] screens[j]).id == id || !adjacent(
                    screens[source].rect,
                    screens[j].rect,
                    edge,
                ),
        },
{
    lemma_first_index(screens, 0, |s: ScreenModel| s.id == id);
    lemma_first_index(
        screens,
        0,
        |s: ScreenModel| s.id != id && adjacent(screens[source].rect, s.rect, edge),
    );
}

/// A screen that is not in the layout has no neighbors, and no cursor leaves it.
pub proof fn law_unknown_screen_has_no_neighbor(
    screens: Seq<ScreenModel>,
    id: Seq<char>,
    edge: Edge,
    x: i32,
    y: i32,
)
    requires
        forall|j: int| 0 <= j < screens.len() ==> (#[trigger] screens[j]).id != id,
    ensures
        screen_index(screens, id) is None,
        neighbor_index(screens, id, edge) is None,
        crossing(screens, id, x, y) is None,
{
    lemma_first_index(screens, 0, |s: ScreenModel| s.id == id);
}

/// A cursor within three pixels of an edge, or beyond it, crosses to the
/// neighbor at that edge. Where several edges are near, the right edge comes
/// before the left, the left before the bottom, the bottom before the top;
/// edges without a neighbor are passed over.
pub proof fn law_crossing_by_the_first_open_edge(
    screens: Seq<ScreenModel>,
    id: Seq<char>,
    x: i32,
    y: i32,
    source: int,
)
    requires
        screen_index(screens, id) == Some(source),
    ensures
        ({
            let rect = screens[source].rect;
            let right = x >= rect.right_edge() - 3 && neighbor_index(
                screens,
                id,
                Edge::Right,
            ) is Some;
            let left = x <= rect.x + 3 && neighbor_index(screens, id, Edge::Left) is Some;
            let bottom = y >= rect.bottom_edge() - 3 && neighbor_index(
                screens,
                id,
                Edge::Bottom,
            ) is Some;
            let top = y <= rect.y + 3 && neighbor_index(screens, id, Edge::Top) is Some;
            match crossing(screens, id, x, y) {
                Some((edge, i)) => {
                    &&& neighbor_index(screens, id, edge) == Some(i)
                    &&& edge is Right <==> right
                    &&& edge is Left <==> left && !right
                    &&& edge is Bottom <==> bottom && !right && !left
                    &&& edge is Top <==> top && !right && !left && !bottom
                },
                None => !right && !left && !bottom && !top,
            }
        }),
{
}

/// A cursor that came over an edge can go back: next to the edge by which it
/// entered, it crosses again by that edge or by one that comes before it.
pub proof fn law_crossing_goes_both_ways(
    screens: Seq<ScreenModel>,
    from: int,
    to: int,
    edge: Edge,
    x: i32,
    y: i32,
)
    requires
        0 <= from < screens.len(),
        0 <= to < screens.len(),
        screens[from].id != screens[to].id,
        screen_index(screens, screens[to].id) == Some(to),
        adjacent(screens[from].rect, screens[to].rect, edge),
        match edge {
            Edge::Right => x <= screens[to].rect.x,
            Edge::Left => x >= screens[to].rect.right_edge(),
            Edge::Bottom => y <= screens[to].rect.y,
            Edge::Top => y >= screens[to].rect.bottom_edge(),
        },
    ensures
        crossing(screens, screens[to].id, x, y) is Some,
{
    law_adjacency_is_mutual(screens[from].rect, screens[to].rect, edge);
    law_touching_screen_gives_neighbor(screens, screens[to].id, edge.opposite(), from);
}

/// The model of a layout holds every screen in its place, with all it says.
pub proof fn law_layout_is_seen_whole(layout: ScreenLayout, i: int)
    requires
        0 <= i < layout.screens@.len(),
    ensures
        layout@.len() == layout.screens@.len(),
        layout@[i].id == layout.screens@[i].id@,
        layout@[i].name == layout.screens@[i].name@,
        layout@[i].rect == layout.screens@[i].rect,
        layout@[i].peer_id is Some <==> layout.screens@[i].peer_id is Some,
        layout.screens@[i].peer_id matches Some(text) ==> layout@[i].peer_id == Some(text@),
        layout@[i].width == layout.screens@[i].width,
        layout@[i].height == layout.screens@[i].height,
        layout@[i].dpi == layout.screens@[i].dpi,
{
}

/// Every layout can be worked with in which the edges of the screens, three
/// pixels around them, and the distances between them can be held.
pub proof fn law_layouts_fit_whose_edges_fit(
    screens: Seq<ScreenModel>,
    id: Seq<char>,
    x: i32,
    y: i32,
)
    requires
        forall|i: int|
            0 <= i < screens.len() ==> {
                let rect = (#[trigger] screens[i]).rect;
                &&& rect.x <= 0x7fff_ffff - 3
                &&& rect.y <= 0x7fff_ffff - 3
                &&& -0x8000_0000 + 3 <= rect.right_edge() <= 0x7fff_ffff
                &&& -0x8000_0000 + 3 <= rect.bottom_edge() <= 0x7fff_ffff
            },
        forall|i: int, j: int|
            0 <= i < screens.len() && 0 <= j < screens.len() ==> {
                let a = (#[trigger] screens[i]).rect;
                let b = (#[trigger] screens[j]).rect;
                &&& -0x8000_0000 < a.x - b.right_edge() <= 0x7fff_ffff
                &&& -0x8000_0000 < a.y - b.bottom_edge() <= 0x7fff_ffff
            },
    ensures
        forall|edge: Edge| #[trigger] neighbor_fits(screens, id, edge),
        crossing_fits(screens, id, x, y),
{
    lemma_first_index(screens, 0, |s: ScreenModel| s.id == id);
    assert forall|edge: Edge| #[trigger] neighbor_fits(screens, id, edge) by {}
}

/// Two ranges overlap exactly when they have a point in common.
pub proof fn law_overlapping_ranges_share_a_point(start1: i32, len1: u32, start2: i32, len2: u32)
    requires
        0 < len1 < 0x8000_0000,
        0 < len2 < 0x8000_0000,
    ensures
        overlap(start1, len1, start2, len2) <==> exists|p: int|
            #[trigger] in_range(p, start1 as int, len1 as int) && in_range(
                p,
                start2 as int,
                len2 as int,
            ),
        overlap(start1, len1, start2, len2) == overlap(start2, len2, start1, len1),
{
    let p: int = if start1 > start2 {
        start1 as int
    } else {
        start2 as int
    };
    assert(in_range(p, start1 as int, len1 as int) && in_range(p, start2 as int, len2 as int)
        <==> start1 < start2 + len2 && start2 < start1 + len1);
}

/// Whether a point lies in a range, given by its start and length.
pub open spec fn in_range(point: int, start: int, len: int) -> bool {
    start <= point < start + len
}

} // verus!
