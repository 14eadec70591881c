//! An engine for pages that are rendered to HTML in this process.
//!
//! A frame is a picture of the page's hash: a background that darkens by row, and four coloured
//! bars across its middle.  Rendering the built-in page and shading the background are functions
//! that the engine is given.
use vstd::prelude::*;
use vstd::string::*;
use vstd::std_specs::hash::*;
use std::collections::hash_map::DefaultHasher;
use std::hash::{Hash, Hasher};
use crate::engine::{
    at_least_one, bitmap, bitmap_at, bound_size, choose_devtools, devtools_choice, one_or_more,
    row_bytes, size_for_surface, stride_of, wrapped_sum, Engine, EngineCall, EngineCapabilities,
    EngineCapabilitiesView, EngineError, EngineFrame, EngineFrameView, EngineInit, EngineReply,
};
use crate::ipc_protocol::{CompressedFormat, IpcInputEvent, SurfaceDescriptor};
use crate::png::{encode_png, image_error_text, png_file};
use crate::text::{
    chars_of, eq_ignore_case, is_white, joined, opt_view, same_ignoring_case, starts_with,
    trim_chars_start, trim_start, views,
};

verus! {

/// The page that stands for `about:blank`.
pub const BLANK_PAGE: &'static str =
    "<!doctype html><html><head><meta charset=\"utf-8\"><title>blank</title></head><body></body></html>";

/// The page that a text leads to: HTML and HTML data URLs are taken as they are, the blank page and
/// the built-in page have their names, and any other text becomes a paragraph.
pub open spec fn page_for(s: Seq<char>, built_in: Seq<char>) -> Seq<char> {
    if trim_start(s).len() > 0 && trim_start(s)[0] == '<' {
        s
    } else if "data:text/html"@.is_prefix_of(s) {
        s
    } else if same_ignoring_case(s, "about:blank"@) {
        BLANK_PAGE@
    } else if names_built_in(s) {
        built_in
    } else {
        "<!doctype html><html><body><p>"@ + s + "</p></body></html>"@
    }
}

/// Whether a text names the built-in page and is not taken as HTML.
pub open spec fn names_built_in(s: Seq<char>) -> bool {
    same_ignoring_case(s, "dioxus://default"@) || same_ignoring_case(s, "about:dioxus"@)
}

/// What a text is to the engine.
#[derive(Debug, Clone, Copy, PartialEq, Eq, Structural)]
pub enum PageKind {
    Verbatim,
    Blank,
    BuiltIn,
    Paragraph,
}

/// The kind of a text.
pub open spec fn kind_of(s: Seq<char>) -> PageKind {
    if trim_start(s).len() > 0 && trim_start(s)[0] == '<' {
        PageKind::Verbatim
    } else if "data:text/html"@.is_prefix_of(s) {
        PageKind::Verbatim
    } else if same_ignoring_case(s, "about:blank"@) {
        PageKind::Blank
    } else if names_built_in(s) {
        PageKind::BuiltIn
    } else {
        PageKind::Paragraph
    }
}

/// Tells what a text is to the engine.
pub fn page_kind(s: &str) -> (k: PageKind)
    ensures
        k == kind_of(s@),
{
    let chars = chars_of(s);
    let front = trim_chars_start(&chars);
    if front.len() > 0 && front[0] == '<' {
        return PageKind::Verbatim;
    }
    if starts_with(&chars, "data:text/html") {
        return PageKind::Verbatim;
    }
    if eq_ignore_case(s, "about:blank") {
        return PageKind::Blank;
    }
    if eq_ignore_case(s, "dioxus://default") || eq_ignore_case(s, "about:dioxus") {
        return PageKind::BuiltIn;
    }
    PageKind::Paragraph
}

/// Makes the page that a text leads to; `built_in` is the built-in page.
pub fn normalize_load_input(s: &str, built_in: &str) -> (r: String)
    ensures
        r@ == page_for(s@, built_in@),
{
    match page_kind(s) {
        PageKind::Verbatim => s.to_owned(),
        PageKind::Blank => BLANK_PAGE.to_owned(),
        PageKind::BuiltIn => built_in.to_owned(),
        PageKind::Paragraph => {
            let mut page = joined("<!doctype html><html><body><p>", s);
            page.append("</p></body></html>");
            page
        },
    }
}

/// Whether a text is taken as it is: as HTML or as an HTML data URL.
pub open spec fn is_verbatim(s: Seq<char>) -> bool {
    (trim_start(s).len() > 0 && trim_start(s)[0] == '<') || "data:text/html"@.is_prefix_of(s)
}

/// Every text leads to HTML or to an HTML data URL, so that the page that a text leads to leads to
/// itself, where the built-in page is such a page.
pub proof fn page_leads_to_itself(s: Seq<char>, built_in: Seq<char>)
    requires
        is_verbatim(built_in),
    ensures
        is_verbatim(page_for(s, built_in)),
        page_for(page_for(s, built_in), built_in) == page_for(s, built_in),
{
    reveal_strlit(
        "<!doctype html><html><head><meta charset=\"utf-8\"><title>blank</title></head><body></body></html>",
    );
    reveal_strlit("<!doctype html><html><body><p>");
    let paragraph = "<!doctype html><html><body><p>"@ + s + "</p></body></html>"@;
    assert(BLANK_PAGE@[0] == '<');
    assert(paragraph[0] == '<');
    assert(!is_white('<'));
    assert(trim_start(BLANK_PAGE@) == BLANK_PAGE@);
    assert(trim_start(paragraph) == paragraph);
}

/// Both names of the built-in page lead to it.
pub proof fn built_in_page_has_two_names(built_in: Seq<char>)
    ensures
        page_for("dioxus://default"@, built_in) == built_in,
        page_for("about:dioxus"@, built_in) == built_in,
{
    reveal_strlit("dioxus://default");
    reveal_strlit("about:dioxus");
    reveal_strlit("about:blank");
    reveal_strlit("data:text/html");
    let a = "dioxus://default"@;
    let b = "about:dioxus"@;
    let data = "data:text/html"@;
    assert(a[0] == 'd' && b[0] == 'a' && !is_white('d') && !is_white('a'));
    assert(trim_start(a) == a && trim_start(b) == b);
    if data.is_prefix_of(a) {
        assert(data[1] == a.subrange(0, data.len() as int)[1]);
    }
    assert("about:blank"@.len() != a.len() && "about:blank"@.len() != b.len());
    assert(same_ignoring_case(a, a) && same_ignoring_case(b, b));
}

/// What `str::hash` writes to a hasher.
pub uninterp spec fn hash_writes(s: Seq<char>) -> Seq<Seq<u8>>;

/// `str::hash` into a `DefaultHasher`; what it writes is called [`hash_writes`].
#[verifier::external_body]
fn hash_into(s: &str, hasher: &mut DefaultHasher)
    ensures
        final(hasher)@ == old(hasher)@ + hash_writes(s@),
{
    s.hash(hasher)
}

/// The hash of a page.
pub open spec fn page_hash(html: Seq<char>) -> u64 {
    DefaultHasher::spec_finish(hash_writes(html))
}

/// Hashes a page.
pub fn hash_page(html: &str) -> (h: u64)
    ensures
        h == page_hash(html@),
{
    let mut hasher = DefaultHasher::new();
    hash_into(html, &mut hasher);
    proof {
        assert(hasher@ =~= hash_writes(html@));
    }
    hasher.finish()
}

/// One of the low four bytes of a hash.
pub open spec fn hash_byte(h: u64, i: int) -> u8 {
    if i == 0 {
        (h & 0xFF) as u8
    } else if i == 1 {
        ((h >> 8) & 0xFF) as u8
    } else if i == 2 {
        ((h >> 16) & 0xFF) as u8
    } else {
        ((h >> 24) & 0xFF) as u8
    }
}

/// Takes one of the low four bytes of a hash.
pub fn byte_of(h: u64, i: u32) -> (b: u8)
    requires
        i < 4,
    ensures
        b == hash_byte(h, i as int),
{
    if i == 0 {
        (h & 0xFF) as u8
    } else if i == 1 {
        ((h >> 8) & 0xFF) as u8
    } else if i == 2 {
        ((h >> 16) & 0xFF) as u8
    } else {
        ((h >> 24) & 0xFF) as u8
    }
}

/// The colour of a page: the low bytes of its hash, opaque.
pub fn hash_to_rgba(h: u64) -> (c: (u8, u8, u8, u8))
    ensures
        c == (hash_byte(h, 0), hash_byte(h, 1), hash_byte(h, 2), 0xFFu8),
{
    (byte_of(h, 0), byte_of(h, 1), byte_of(h, 2), 0xFF)
}

/// The bar that a column belongs to: the width is cut in four, and the last bar takes what is left
/// over.
pub open spec fn bar_at(x: nat, width: nat) -> int {
    if width / 4 == 0 || x / (width / 4) >= 3 {
        3
    } else {
        (x / (width / 4)) as int
    }
}

/// A channel of the colour of a bar.
pub open spec fn bar_channel(b: u8, c: nat) -> u8 {
    if c == 0 {
        b
    } else if c == 1 {
        (255 - b) as u8
    } else if c == 2 {
        b ^ 0x5A
    } else {
        0xFF
    }
}

/// The shades of one row.
pub struct Shades {
    pub red: u8,
    pub green: u8,
    pub blue: u8,
}

/// A byte of the picture of a page: bars in the middle third, the background elsewhere.
pub open spec fn picture_byte(
    hash: u64,
    rows: Seq<Shades>,
    width: nat,
    height: nat,
    x: nat,
    y: nat,
    c: nat,
) -> u8 {
    if height / 3 <= y < 2 * height / 3 {
        bar_channel(hash_byte(hash, bar_at(x, width)), c)
    } else if c == 0 {
        rows[y as int].red
    } else if c == 1 {
        rows[y as int].green
    } else if c == 2 {
        rows[y as int].blue
    } else {
        0xFF
    }
}

/// The picture of a page.
pub open spec fn picture(hash: u64, rows: Seq<Shades>, width: nat, height: nat) -> Seq<u8> {
    bitmap(
        width,
        height,
        |x: nat, y: nat, c: nat| picture_byte(hash, rows, width, height, x, y, c),
    )
}

fn bar_index(x: u32, width: u32) -> (i: u32)
    requires
        x < width,
    ensures
        i < 4,
        i == bar_at(x as nat, width as nat),
{
    let bar: u32 = width / 4;
    if bar == 0 {
        return 3;
    }
    let i: u32 = x / bar;
    if i >= 3 {
        3
    } else {
        i
    }
}

/// Paints the picture of a page.
pub fn paint(hash: u64, rows: &Vec<Shades>, width: u32, height: u32) -> (bytes: Vec<u8>)
    requires
        rows@.len() == height,
        2 * height <= u32::MAX,
        width * 4 * height <= usize::MAX,
    ensures
        bytes@ == picture(hash, rows@, width as nat, height as nat),
{
    let ghost w = width as nat;
    let ghost h = height as nat;
    let ghost pixel = |x: nat, y: nat, c: nat| picture_byte(hash, rows@, w, h, x, y, c);
    let ghost full = picture(hash, rows@, w, h);
    let ghost row = 4 * w as int;
    let mut bytes: Vec<u8> = Vec::new();
    let mut y: u32 = 0;
    while y < height
        invariant
            y <= height,
            rows@.len() == height,
            2 * height <= u32::MAX,
            w == width,
            h == height,
            row == 4 * w,
            pixel == (|x: nat, y: nat, c: nat| picture_byte(hash, rows@, w, h, x, y, c)),
            full == bitmap(w, h, pixel),
            bytes.len() == y * row,
            forall|i: int| 0 <= i < bytes.len() ==> bytes[i] == full[i],
        decreases height - y,
    {
        let barred: bool = height / 3 <= y && y < 2 * height / 3;
        let mut x: u32 = 0;
        while x < width
            invariant
                y < height,
                x <= width,
                rows@.len() == height,
                w == width,
                h == height,
                row == 4 * w,
                barred == (height / 3 <= y < 2 * height / 3),
                pixel == (|x: nat, y: nat, c: nat| picture_byte(hash, rows@, w, h, x, y, c)),
                full == bitmap(w, h, pixel),
                bytes.len() == y * row + 4 * x,
                forall|i: int| 0 <= i < bytes.len() ==> bytes[i] == full[i],
            decreases width - x,
        {
            proof {
                bitmap_at(w, h, pixel, x as nat, y as nat, 0);
                bitmap_at(w, h, pixel, x as nat, y as nat, 1);
                bitmap_at(w, h, pixel, x as nat, y as nat, 2);
                bitmap_at(w, h, pixel, x as nat, y as nat, 3);
            }
            if barred {
                let b: u8 = byte_of(hash, bar_index(x, width));
                bytes.push(b);
                bytes.push(255 - b);
                bytes.push(b ^ 0x5A);
                bytes.push(0xFF);
            } else {
                bytes.push(rows[y as usize].red);
                bytes.push(rows[y as usize].green);
                bytes.push(rows[y as usize].blue);
                bytes.push(0xFF);
            }
            x += 1;
        }
        proof {
            assert((y + 1) * row == y * row + row) by (nonlinear_arith);
        }
        y += 1;
    }
    proof {
        assert(h * row == 4 * w * h) by (nonlinear_arith)
            requires
                row == 4 * w,
        ;
        assert(bytes@ =~= full);
    }
    bytes
}

/// The reply to a draw for what the encoder made of the picture.
pub open spec fn png_reply(width: u32, height: u32, file: Option<Seq<u8>>, reply: EngineReply) -> bool {
    match file {
        Some(data) => reply == EngineReply::Frame(
            Some(
                EngineFrameView::CompressedImage {
                    width,
                    height,
                    format: CompressedFormat::Png,
                    data,
                },
            ),
        ),
        None => exists|text: Seq<char>| #[trigger]
            ("PNG encode failed: "@ + text) == reply->Failed_0 && reply is Failed,
    }
}

/// The reply to a draw that came to a file or an error.
pub open spec fn file_reply(
    width: u32,
    height: u32,
    r: Result<Vec<u8>, EngineError>,
) -> EngineReply {
    match r {
        Ok(data) => EngineReply::Frame(
            Some(
                EngineFrameView::CompressedImage {
                    width,
                    height,
                    format: CompressedFormat::Png,
                    data: data@,
                },
            ),
        ),
        Err(e) => EngineReply::Failed(e.msg@),
    }
}

/// The shade function gave the shades of a row.
pub open spec fn shaded<S: Fn(u32, u32, u8) -> u8>(
    shade: S,
    y: u32,
    height: u32,
    hash: u64,
    s: Shades,
) -> bool {
    &&& call_ensures(shade, (y, height, hash_byte(hash, 0)), s.red)
    &&& call_ensures(shade, (y, height, hash_byte(hash, 1)), s.green)
    &&& call_ensures(shade, (y, height, hash_byte(hash, 2)), s.blue)
}

/// The shade function gave the shades of all rows.
pub open spec fn all_shaded<S: Fn(u32, u32, u8) -> u8>(
    shade: S,
    height: u32,
    hash: u64,
    rows: Seq<Shades>,
) -> bool {
    rows.len() == height && forall|y: int|
        0 <= y < height ==> shaded(shade, y as u32, height, hash, #[trigger] rows[y])
}

/// An engine for pages that are rendered in this process.  `R` renders the built-in page for a
/// user agent and a number of scripts; `S` gives the shade of a channel in a row of a picture.
pub struct DioxusEngine<R, S> {
    pub resources_dir: Option<String>,
    pub user_agent: Option<String>,
    pub init_scripts: Vec<String>,
    pub devtools_port_cfg: Option<u16>,
    pub prefer_zero_copy: bool,
    pub width: u32,
    pub height: u32,
    pub stride: u32,
    pub last_html: Option<String>,
    pub next_frame_id: u64,
    pub input_events: usize,
    pub render: R,
    pub shade: S,
}

/// View of a [`DioxusEngine`].
pub struct DioxusState {
    pub resources_dir: Option<Seq<char>>,
    pub user_agent: Option<Seq<char>>,
    pub init_scripts: Seq<Seq<char>>,
    pub devtools_port_cfg: Option<u16>,
    pub prefer_zero_copy: bool,
    pub width: u32,
    pub height: u32,
    pub stride: u32,
    pub last_html: Option<Seq<char>>,
    pub next_frame_id: u64,
    pub input_events: usize,
}

impl<R, S> View for DioxusEngine<R, S> {
    type V = DioxusState;

    open spec fn view(&self) -> DioxusState {
        DioxusState {
            resources_dir: opt_view(self.resources_dir),
            user_agent: opt_view(self.user_agent),
            init_scripts: views(self.init_scripts@),
            devtools_port_cfg: self.devtools_port_cfg,
            prefer_zero_copy: self.prefer_zero_copy,
            width: self.width,
            height: self.height,
            stride: self.stride,
            last_html: opt_view(self.last_html),
            next_frame_id: self.next_frame_id,
            input_events: self.input_events,
        }
    }
}

impl DioxusState {
    /// The state of a new engine.
    pub open spec fn fresh() -> DioxusState {
        DioxusState {
            resources_dir: None,
            user_agent: None,
            init_scripts: Seq::empty(),
            devtools_port_cfg: None,
            prefer_zero_copy: false,
            width: 0,
            height: 0,
            stride: 0,
            last_html: None,
            next_frame_id: 0,
            input_events: 0,
        }
    }

    /// The same state with a definite size: 800 by 600 where no size is known.
    pub open spec fn sized(self) -> DioxusState {
        let (w, h): (u32, u32) = if self.width == 0 || self.height == 0 {
            (800, 600)
        } else {
            (self.width, self.height)
        };
        DioxusState { width: w, height: h, stride: row_bytes(w), ..self }
    }

    /// Whether the picture of the definite size can be painted.
    pub open spec fn fits(self) -> bool {
        let s = self.sized();
        s.width * 4 * s.height <= usize::MAX && 2 * s.height <= u32::MAX
    }

    /// The state after a call that touches neither pages nor pictures.
    pub open spec fn after(self, call: EngineCall) -> DioxusState {
        match call {
            EngineCall::Init(init) => DioxusState {
                resources_dir: init.resources_dir,
                user_agent: init.user_agent,
                init_scripts: init.init_scripts,
                devtools_port_cfg: init.devtools_port,
                prefer_zero_copy: init.prefer_zero_copy,
                ..self
            },
            EngineCall::BindSurface(surface) => {
                let (w, h) = bound_size(surface, self.width, self.height, 800, 600);
                DioxusState { width: w, height: h, stride: row_bytes(w), ..self }
            },
            EngineCall::Resize(w, h) => DioxusState {
                width: at_least_one(w),
                height: at_least_one(h),
                stride: row_bytes(at_least_one(w)),
                ..self
            },
            EngineCall::InputEvents(events) => DioxusState {
                input_events: wrapped_sum(self.input_events as nat, events.len()),
                ..self
            },
            EngineCall::Shutdown => DioxusState {
                width: 0,
                height: 0,
                stride: 0,
                last_html: None,
                ..self
            },
            _ => self,
        }
    }

    /// The state after a page was drawn.
    pub open spec fn drawn(self, html: Seq<char>) -> DioxusState {
        DioxusState {
            last_html: Some(html),
            next_frame_id: ((self.next_frame_id + 1) % 0x1_0000_0000_0000_0000) as u64,
            ..self.sized()
        }
    }

    /// The state after drawing a page failed: the page and the size are kept.
    pub open spec fn drawn_in_vain(self, html: Seq<char>) -> DioxusState {
        DioxusState { last_html: Some(html), ..self.sized() }
    }
}

/// The render function gave the built-in page.
pub open spec fn rendered<R: Fn(&Option<String>, usize) -> String>(
    render: R,
    user_agent: Option<String>,
    scripts: usize,
    page: Seq<char>,
) -> bool {
    exists|s: String| #[trigger] call_ensures(render, (&user_agent, scripts), s) && s@ == page
}

/// The page of a load: the built-in page is rendered where the text names it.
pub open spec fn loaded<R: Fn(&Option<String>, usize) -> String>(
    render: R,
    user_agent: Option<String>,
    scripts: usize,
    text: Seq<char>,
    page: Seq<char>,
) -> bool {
    if kind_of(text) == PageKind::BuiltIn {
        rendered(render, user_agent, scripts, page)
    } else {
        page == page_for(text, Seq::empty())
    }
}

/// The picture of a page was made and encoded.
pub open spec fn pictured<S: Fn(u32, u32, u8) -> u8>(
    shade: S,
    html: Seq<char>,
    width: u32,
    height: u32,
    rows: Seq<Shades>,
    reply: EngineReply,
) -> bool {
    &&& all_shaded(shade, height, page_hash(html), rows)
    &&& png_reply(
        width,
        height,
        png_file(width, height, picture(page_hash(html), rows, width as nat, height as nat)),
        reply,
    )
}

impl<R: Fn(&Option<String>, usize) -> String, S: Fn(u32, u32, u8) -> u8> DioxusEngine<R, S> {
    /// The render function takes every user agent and number of scripts.
    pub open spec fn render_ready(&self) -> bool {
        forall|u: &Option<String>, n: usize| #[trigger] call_requires(self.render, (u, n))
    }

    /// The shade function takes every row of a picture and every channel.
    pub open spec fn shade_ready(&self) -> bool {
        forall|y: u32, h: u32, c: u8| y < h ==> #[trigger] call_requires(self.shade, (y, h, c))
    }

    /// A new engine.
    pub fn new(render: R, shade: S) -> (e: Self)
        ensures
            e@ == DioxusState::fresh(),
            e.render == render,
            e.shade == shade,
    {
        let e = DioxusEngine {
            resources_dir: None,
            user_agent: None,
            init_scripts: Vec::new(),
            devtools_port_cfg: None,
            prefer_zero_copy: false,
            width: 0,
            height: 0,
            stride: 0,
            last_html: None,
            next_frame_id: 0,
            input_events: 0,
            render,
            shade,
        };
        proof {
            assert(e@.init_scripts =~= Seq::empty());
        }
        e
    }

    fn ensure_size(&mut self)
        ensures
            final(self)@ == old(self)@.sized(),
            final(self).user_agent == old(self).user_agent,
            final(self).init_scripts == old(self).init_scripts,
            final(self).last_html == old(self).last_html,
            final(self).render == old(self).render,
            final(self).shade == old(self).shade,
    {
        if self.width == 0 || self.height == 0 {
            self.width = 800;
            self.height = 600;
        }
        self.stride = stride_of(self.width);
    }

    fn render_default_app(&self) -> (page: String)
        requires
            self.render_ready(),
        ensures
            rendered(self.render, self.user_agent, self.init_scripts@.len() as usize, page@),
    {
        (self.render)(&self.user_agent, self.init_scripts.len())
    }

    fn shade_rows(&self, hash: u64, height: u32) -> (rows: Vec<Shades>)
        requires
            self.shade_ready(),
        ensures
            all_shaded(self.shade, height, hash, rows@),
    {
        let (r, g, b, _) = hash_to_rgba(hash);
        let mut rows: Vec<Shades> = Vec::new();
        let mut y: u32 = 0;
        while y < height
            invariant
                y <= height,
                self.shade_ready(),
                rows@.len() == y,
                r == hash_byte(hash, 0),
                g == hash_byte(hash, 1),
                b == hash_byte(hash, 2),
                forall|k: int|
                    0 <= k < y ==> shaded(self.shade, k as u32, height, hash, #[trigger] rows@[k]),
            decreases height - y,
        {
            let red: u8 = (self.shade)(y, height, r);
            let green: u8 = (self.shade)(y, height, g);
            let blue: u8 = (self.shade)(y, height, b);
            rows.push(Shades { red, green, blue });
            y += 1;
        }
        rows
    }

    /// Makes the picture of a page as a PNG file; a side of no pixels becomes one pixel.
    pub fn rasterize_html_to_png(&self, html: &str, width: u32, height: u32) -> (r: Result<
        Vec<u8>,
        EngineError,
    >)
        requires
            self.shade_ready(),
            2 * height <= u32::MAX,
            at_least_one(width) * 4 * at_least_one(height) <= usize::MAX,
        ensures
            exists|rows: Seq<Shades>| #[trigger]
                pictured(
                    self.shade,
                    html@,
                    at_least_one(width),
                    at_least_one(height),
                    rows,
                    file_reply(at_least_one(width), at_least_one(height), r),
                ),
    {
        let width: u32 = one_or_more(width);
        let height: u32 = one_or_more(height);
        let hash: u64 = hash_page(html);
        let rows = self.shade_rows(hash, height);
        let pixels = paint(hash, &rows, width, height);
        proof {
            assert(4 * (width as nat) * (height as nat) == 4 * width * height);
        }
        match encode_png(width, height, pixels) {
            Ok(data) => {
                proof {
                    let reply = EngineReply::Frame(
                        Some(
                            EngineFrameView::CompressedImage {
                                width,
                                height,
                                format: CompressedFormat::Png,
                                data: data@,
                            },
                        ),
                    );
                    assert(pictured(self.shade, html@, width, height, rows@, reply));
                }
                Ok(data)
            },
            Err(e) => {
                let text = image_error_text(&e);
                let msg = joined("PNG encode failed: ", text.as_str());
                proof {
                    let reply = EngineReply::Failed(msg@);
                    assert(("PNG encode failed: "@ + text@) == reply->Failed_0);
                    assert(pictured(self.shade, html@, width, height, rows@, reply));
                }
                Err(EngineError { msg })
            },
        }
    }
}

/// Drawing in state `pre` came to `post` with `reply`: the loaded page is drawn, or the built-in
/// page where none is loaded.
pub open spec fn draws<R: Fn(&Option<String>, usize) -> String, S: Fn(u32, u32, u8) -> u8>(
    pre: DioxusEngine<R, S>,
    html: Seq<char>,
    rows: Seq<Shades>,
    post: DioxusState,
    reply: EngineReply,
) -> bool {
    &&& match pre@.last_html {
        Some(h) => html == h,
        None => rendered(pre.render, pre.user_agent, pre.init_scripts@.len() as usize, html),
    }
    &&& pictured(pre.shade, html, pre@.sized().width, pre@.sized().height, rows, reply)
    &&& post == (if reply is Failed {
        pre@.drawn_in_vain(html)
    } else {
        pre@.drawn(html)
    })
}

impl<R: Fn(&Option<String>, usize) -> String, S: Fn(u32, u32, u8) -> u8> Engine for DioxusEngine<
    R,
    S,
> {
    open spec fn step(pre: Self, call: EngineCall, post: Self, reply: EngineReply) -> bool {
        &&& post.render == pre.render
        &&& post.shade == pre.shade
        &&& match call {
            EngineCall::Init(_) => post@ == pre@.after(call) && reply == EngineReply::Capabilities(
                EngineCapabilitiesView {
                    fd_passing: false,
                    zero_copy_frames: false,
                    compressed_frames: true,
                    supported_compressed: seq![CompressedFormat::Png],
                },
            ),
            EngineCall::Load(text) => reply == EngineReply::Done && post@.last_html is Some
                && loaded(
                pre.render,
                pre.user_agent,
                pre.init_scripts@.len() as usize,
                text,
                post@.last_html->0,
            ) && post@ == (DioxusState { last_html: post@.last_html, ..pre@ }),
            EngineCall::RequestDraw | EngineCall::DrawNow => exists|
                html: Seq<char>,
                rows: Seq<Shades>,
            | #[trigger] draws(pre, html, rows, post@, reply),
            EngineCall::OpenDevtools(requested) => post@ == pre@ && reply == EngineReply::Port(
                devtools_choice(requested, pre@.devtools_port_cfg),
            ),
            _ => post@ == pre@.after(call) && reply == EngineReply::Done,
        }
    }

    open spec fn wf(&self) -> bool {
        self.render_ready() && self.shade_ready()
    }

    open spec fn can_draw(&self) -> bool {
        self@.fits()
    }

    fn drawable(&self) -> (b: bool) {
        let w: u32 = if self.width == 0 || self.height == 0 {
            800
        } else {
            self.width
        };
        let h: u32 = if self.width == 0 || self.height == 0 {
            600
        } else {
            self.height
        };
        if h > 0x7FFF_FFFF {
            return false;
        }
        proof {
            assert(w * 4 * h <= 0x3_FFFF_FFFC * 0x7FFF_FFFF) by (nonlinear_arith)
                requires
                    0 <= w <= 0xFFFF_FFFF,
                    0 <= h <= 0x7FFF_FFFF,
            ;
        }
        let total: u128 = (w as u128 * 4) * (h as u128);
        total <= usize::MAX as u128
    }

    fn init(&mut self, init: EngineInit) -> (r: Result<EngineCapabilities, EngineError>) {
        self.resources_dir = init.resources_dir;
        self.user_agent = init.user_agent;
        self.init_scripts = init.init_scripts;
        self.devtools_port_cfg = init.devtools_port;
        self.prefer_zero_copy = init.prefer_zero_copy;
        let mut supported: Vec<CompressedFormat> = Vec::new();
        supported.push(CompressedFormat::Png);
        proof {
            assert(supported@ =~= seq![CompressedFormat::Png]);
        }
        Ok(
            EngineCapabilities {
                fd_passing: false,
                zero_copy_frames: false,
                compressed_frames: true,
                supported_compressed: supported,
            },
        )
    }

    fn bind_surface(&mut self, surface: &SurfaceDescriptor) -> (r: Result<(), EngineError>) {
        let (w, h) = size_for_surface(surface, self.width, self.height, 800, 600);
        self.width = w;
        self.height = h;
        self.ensure_size();
        Ok(())
    }

    fn load(&mut self, url_or_data: &str) -> (r: Result<(), EngineError>) {
        let page = if page_kind(url_or_data) == PageKind::BuiltIn {
            self.render_default_app()
        } else {
            proof {
                reveal_strlit("");
                assert(""@ =~= Seq::empty());
            }
            normalize_load_input(url_or_data, "")
        };
        self.last_html = Some(page);
        Ok(())
    }

    fn eval_script(&mut self, source: &str) -> (r: Result<(), EngineError>) {
        Ok(())
    }

    fn resize(&mut self, width: u32, height: u32) -> (r: Result<(), EngineError>) {
        self.width = one_or_more(width);
        self.height = one_or_more(height);
        self.ensure_size();
        Ok(())
    }

    fn input_events(&mut self, events: &Vec<IpcInputEvent>) -> (r: Result<(), EngineError>) {
        self.input_events = self.input_events.wrapping_add(events.len());
        Ok(())
    }

    fn request_draw(&mut self) -> (r: Result<Option<EngineFrame>, EngineError>) {
        self.draw_now()
    }

    fn draw_now(&mut self) -> (r: Result<Option<EngineFrame>, EngineError>) {
        self.ensure_size();
        let html = match &self.last_html {
            Some(h) => h.clone(),
            None => self.render_default_app(),
        };
        self.last_html = Some(html.clone());
        match self.rasterize_html_to_png(html.as_str(), self.width, self.height) {
            Err(e) => {
                proof {
                    let rows = choose|rows: Seq<Shades>| #[trigger]
                        pictured(
                            self.shade,
                            html@,
                            self.width,
                            self.height,
                            rows,
                            EngineReply::Failed(e.msg@),
                        );
                    assert(draws(*old(self), html@, rows, self@, EngineReply::Failed(e.msg@)));
                }
                Err(e)
            },
            Ok(data) => {
                let ghost before = self@;
                self.next_frame_id = self.next_frame_id.wrapping_add(1);
                let frame = EngineFrame::CompressedImage {
                    width: self.width,
                    height: self.height,
                    format: CompressedFormat::Png,
                    data,
                };
                proof {
                    let reply = EngineReply::Frame(Some(frame@));
                    let rows = choose|rows: Seq<Shades>| #[trigger]
                        pictured(self.shade, html@, self.width, self.height, rows, reply);
                    assert(draws(*old(self), html@, rows, self@, reply));
                }
                Ok(Some(frame))
            },
        }
    }

    fn open_devtools(&mut self, requested: Option<u16>) -> (r: Result<Option<u16>, EngineError>) {
        Ok(choose_devtools(requested, self.devtools_port_cfg))
    }

    fn shutdown(&mut self) -> (r: Result<(), EngineError>) {
        self.width = 0;
        self.height = 0;
        self.stride = 0;
        self.last_html = None;
        Ok(())
    }
}

} // verus!
