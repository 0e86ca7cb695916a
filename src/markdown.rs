//! The state that Markdown rendering keeps between parser events: the image
//! being collected, the code block being inside, and the table being
//! collected cell by cell.
use vstd::prelude::*;
use crate::text::{replace_chars, replaced, trim_whitespace, whitespace_trimmed};

verus! {

/// The texts of a sequence of strings.
pub open spec fn texts(v: Seq<String>) -> Seq<Seq<char>> {
    v.map_values(|s: String| s@)
}

/// The texts of a sequence of rows of strings.
pub open spec fn rows_texts(v: Seq<Vec<String>>) -> Seq<Seq<Seq<char>>> {
    v.map_values(|r: Vec<String>| texts(r@))
}

/// An image whose alternative text is being collected.
pub struct ImageState {
    pub url: Option<String>,
    pub alt: Option<String>,
}

impl Default for ImageState {
    fn default() -> (r: Self)
        ensures
            r.url is None,
            r.alt is None,
    {
        ImageState { url: None, alt: None }
    }
}

/// Whether rendering is inside a code block.
pub struct CodeBlockState {
    pub active: bool,
    pub content: Option<String>,
    pub info: Option<String>,
}

impl Default for CodeBlockState {
    fn default() -> (r: Self)
        ensures
            !r.active,
            r.content is None,
            r.info is None,
    {
        CodeBlockState { active: false, content: None, info: None }
    }
}

/// A table being collected: the header cells, the finished body rows, the
/// row and the cell being filled.
pub struct TableState {
    pub in_head: bool,
    pub headers: Vec<String>,
    pub current_row: Vec<String>,
    pub rows: Vec<Vec<String>>,
    pub current_cell_content: String,
    pub collecting: bool,
}

impl TableState {
    /// The empty state: nothing collected, not in the head, not collecting.
    pub open spec fn is_empty_state(&self) -> bool {
        &&& !self.in_head
        &&& self.headers@.len() == 0
        &&& self.current_row@.len() == 0
        &&& self.rows@.len() == 0
        &&& self.current_cell_content@.len() == 0
        &&& !self.collecting
    }
}

/// `post` is `pre` with its current cell closed: the cell's text joins the
/// header cells inside the head, else the current row, and the next cell
/// starts empty.
pub open spec fn cell_finished(pre: TableState, post: TableState) -> bool {
    &&& post.current_cell_content@.len() == 0
    &&& post.in_head == pre.in_head
    &&& post.collecting == pre.collecting
    &&& rows_texts(post.rows@) == rows_texts(pre.rows@)
    &&& pre.in_head ==> texts(post.headers@) == texts(pre.headers@).push(pre.current_cell_content@)
        && texts(post.current_row@) == texts(pre.current_row@)
    &&& !pre.in_head ==> texts(post.current_row@) == texts(pre.current_row@).push(
        pre.current_cell_content@,
    ) && texts(post.headers@) == texts(pre.headers@)
}

/// `post` is `pre` with its current row closed: outside the head a non-empty
/// row joins the body rows and the next row starts empty; otherwise nothing
/// changes.
pub open spec fn row_finished(pre: TableState, post: TableState) -> bool {
    &&& post.in_head == pre.in_head
    &&& post.collecting == pre.collecting
    &&& post.current_cell_content@ == pre.current_cell_content@
    &&& texts(post.headers@) == texts(pre.headers@)
    &&& !pre.in_head && pre.current_row@.len() > 0 ==> rows_texts(post.rows@) == rows_texts(
        pre.rows@,
    ).push(texts(pre.current_row@)) && post.current_row@.len() == 0
    &&& !(!pre.in_head && pre.current_row@.len() > 0) ==> rows_texts(post.rows@) == rows_texts(
        pre.rows@,
    ) && texts(post.current_row@) == texts(pre.current_row@)
}

impl Default for TableState {
    fn default() -> (r: Self)
        ensures
            r.is_empty_state(),
    {
        TableState {
            in_head: false,
            headers: Vec::new(),
            current_row: Vec::new(),
            rows: Vec::new(),
            current_cell_content: String::new(),
            collecting: false,
        }
    }
}

impl TableState {
    /// Forgets everything collected.
    pub fn reset(&mut self)
        ensures
            final(self).is_empty_state(),
    {
        *self = TableState::default();
    }

    /// Starts collecting a new table: header cells and body rows are cleared.
    pub fn start_collecting(&mut self)
        ensures
            final(self).collecting,
            final(self).headers@.len() == 0,
            final(self).rows@.len() == 0,
            final(self).in_head == old(self).in_head,
            final(self).current_row@ == old(self).current_row@,
            final(self).current_cell_content@ == old(self).current_cell_content@,
    {
        self.collecting = true;
        self.headers.clear();
        self.rows.clear();
    }

    /// Appends text to the cell being filled.
    pub fn add_cell_content(&mut self, content: &str)
        ensures
            final(self).current_cell_content@ == old(self).current_cell_content@ + content@,
            final(self).in_head == old(self).in_head,
            final(self).collecting == old(self).collecting,
            texts(final(self).headers@) == texts(old(self).headers@),
            texts(final(self).current_row@) == texts(old(self).current_row@),
            rows_texts(final(self).rows@) == rows_texts(old(self).rows@),
    {
        self.current_cell_content.append(content);
    }

    /// Closes the cell being filled: its text becomes a header cell inside
    /// the head, else a cell of the current row; the next cell starts empty.
    pub fn finish_cell(&mut self)
        ensures
            cell_finished(*old(self), *final(self)),
    {
        let mut content = String::new();
        std::mem::swap(&mut content, &mut self.current_cell_content);
        if self.in_head {
            self.headers.push(content);
            assert(texts(self.headers@) =~= texts(old(self).headers@).push(content@));
        } else {
            self.current_row.push(content);
            assert(texts(self.current_row@) =~= texts(old(self).current_row@).push(content@));
        }
    }

    /// Closes the current row: outside the head a non-empty row joins the
    /// body rows and the next row starts empty; otherwise nothing changes.
    pub fn finish_row(&mut self)
        ensures
            row_finished(*old(self), *final(self)),
    {
        if !self.in_head && self.current_row.len() > 0 {
            let mut row: Vec<String> = Vec::new();
            std::mem::swap(&mut row, &mut self.current_row);
            self.rows.push(row);
            assert(rows_texts(self.rows@) =~= rows_texts(old(self).rows@).push(texts(row@)));
        }
    }

    /// The header cells, borrowed.
    pub fn get_headers_refs(&self) -> (r: Vec<&str>)
        ensures
            r@.len() == self.headers@.len(),
            forall|i: int| 0 <= i < r@.len() ==> (#[trigger] r@[i])@ == self.headers@[i]@,
    {
        let mut out: Vec<&str> = Vec::with_capacity(self.headers.len());
        let mut i: usize = 0;
        while i < self.headers.len()
            invariant
                i <= self.headers@.len(),
                out@.len() == i,
                forall|j: int| 0 <= j < i ==> (#[trigger] out@[j])@ == self.headers@[j]@,
            decreases self.headers@.len() - i,
        {
            out.push(self.headers[i].as_str());
            i = i + 1;
        }
        out
    }

    /// The body rows, borrowed.
    pub fn get_rows_refs(&self) -> (r: Vec<Vec<&str>>)
        ensures
            r@.len() == self.rows@.len(),
            forall|i: int|
                0 <= i < r@.len() ==> (#[trigger] r@[i])@.len() == self.rows@[i]@.len() && forall|
                    j: int,
                | 0 <= j < r@[i]@.len() ==> (#[trigger] r@[i]@[j])@ == self.rows@[i]@[j]@,
    {
        let mut out: Vec<Vec<&str>> = Vec::with_capacity(self.rows.len());
        let mut i: usize = 0;
        while i < self.rows.len()
            invariant
                i <= self.rows@.len(),
                out@.len() == i,
                forall|k: int|
                    0 <= k < i ==> (#[trigger] out@[k])@.len() == self.rows@[k]@.len() && forall|
                        j: int,
                    | 0 <= j < out@[k]@.len() ==> (#[trigger] out@[k]@[j])@ == self.rows@[k]@[j]@,
            decreases self.rows@.len() - i,
        {
            let row = &self.rows[i];
            let mut cells: Vec<&str> = Vec::with_capacity(row.len());
            let mut j: usize = 0;
            while j < row.len()
                invariant
                    j <= row@.len(),
                    cells@.len() == j,
                    forall|m: int| 0 <= m < j ==> (#[trigger] cells@[m])@ == row@[m]@,
                decreases row@.len() - j,
            {
                cells.push(row[j].as_str());
                j = j + 1;
            }
            out.push(cells);
            i = i + 1;
        }
        out
    }
}

/// The rendering state kept across the events of one document.
pub struct MarkdownEventProcessor {
    pub image_state: ImageState,
    pub code_block_state: CodeBlockState,
    pub table_state: TableState,
}

impl MarkdownEventProcessor {
    /// A processor outside any image, code block or table.
    pub fn new() -> (r: Self)
        ensures
            r.image_state.url is None,
            r.image_state.alt is None,
            !r.code_block_state.active,
            r.code_block_state.content is None,
            r.code_block_state.info is None,
            r.table_state.is_empty_state(),
    {
        MarkdownEventProcessor {
            image_state: ImageState::default(),
            code_block_state: CodeBlockState::default(),
            table_state: TableState::default(),
        }
    }

    pub fn in_code_block(&self) -> (r: bool)
        ensures
            r == self.code_block_state.active,
    {
        self.code_block_state.active
    }

    pub fn in_table_head(&self) -> (r: bool)
        ensures
            r == self.table_state.in_head,
    {
        self.table_state.in_head
    }

    pub fn is_collecting_image(&self) -> (r: bool)
        ensures
            r == self.image_state.url is Some,
    {
        self.image_state.url.is_some()
    }

    pub fn is_collecting_table(&self) -> (r: bool)
        ensures
            r == self.table_state.collecting,
    {
        self.table_state.collecting
    }
}

/// What the renderer emits for an event: raw HTML, or text to be escaped.
pub enum Rendered {
    Html(String),
    Text(String),
}

/// The kind and the text of an emitted piece: `true` for HTML.
pub open spec fn piece(r: Rendered) -> (bool, Seq<char>) {
    match r {
        Rendered::Html(s) => (true, s@),
        Rendered::Text(s) => (false, s@),
    }
}

pub open spec fn html(s: Seq<char>) -> (bool, Seq<char>) {
    (true, s)
}

pub open spec fn plain(s: Seq<char>) -> (bool, Seq<char>) {
    (false, s)
}

/// A formula with its line breaks removed.
pub open spec fn one_line(s: Seq<char>) -> Seq<char> {
    replaced(s, '\n', '\r', Seq::empty())
}

pub open spec fn inline_math_html(eq: Seq<char>) -> Seq<char> {
    "<img eeimg=\"1\" src=\"//www.zhihu.com/equation?tex="@ + eq + "\" alt=\""@ + eq + "\"/>"@
}

pub open spec fn display_math_html(eq: Seq<char>) -> Seq<char> {
    "<img eeimg=\"1\" src=\"//www.zhihu.com/equation?tex="@ + eq + "\\\\\" alt=\""@ + eq
        + "\\\\\"/>"@
}

pub open spec fn image_html(url: Seq<char>, caption: Seq<char>) -> Seq<char> {
    "<img src=\""@ + url + "\" data-caption=\""@ + caption
        + "\" data-size=\"normal\" data-watermark=\"watermark\" data-original-src=\""@ + url
        + "\" data-watermark-src=\"\" data-private-watermark-src=\"\" />"@
}

pub open spec fn code_block_html(lang: Seq<char>) -> Seq<char> {
    "<pre lang=\""@ + lang + "\">"@
}

/// Each cell wrapped in `open` and `close`, in order.
pub open spec fn cells_html(open: Seq<char>, close: Seq<char>, cells: Seq<Seq<char>>) -> Seq<char>
    decreases cells.len(),
{
    if cells.len() == 0 {
        Seq::empty()
    } else {
        cells_html(open, close, cells.drop_last()) + open + cells.last() + close
    }
}

pub open spec fn row_html(open: Seq<char>, close: Seq<char>, cells: Seq<Seq<char>>) -> Seq<char> {
    "<tr>"@ + cells_html(open, close, cells) + "</tr>"@
}

/// Each body row as a `<tr>` of `<td>` cells, in order.
pub open spec fn body_rows_html(rows: Seq<Seq<Seq<char>>>) -> Seq<char>
    decreases rows.len(),
{
    if rows.len() == 0 {
        Seq::empty()
    } else {
        body_rows_html(rows.drop_last()) + row_html("<td>"@, "</td>"@, rows.last())
    }
}

/// A table: a header row of `<th>` cells where there are header cells, then
/// the body rows.
pub open spec fn table_html(headers: Seq<Seq<char>>, rows: Seq<Seq<Seq<char>>>) -> Seq<char> {
    "<table data-draft-node=\"block\" data-draft-type=\"table\" data-size=\"normal\"><tbody>"@
        + (if headers.len() == 0 {
        Seq::empty()
    } else {
        row_html("<th>"@, "</th>"@, headers)
    }) + body_rows_html(rows) + "</tbody></table>"@
}

pub open spec fn str_texts(v: Seq<&str>) -> Seq<Seq<char>> {
    v.map_values(|s: &str| s@)
}

pub open spec fn str_rows_texts(v: Seq<Vec<&str>>) -> Seq<Seq<Seq<char>>> {
    v.map_values(|r: Vec<&str>| str_texts(r@))
}

/// The parser events that rendering treats specially. Every other event is
/// `Other`, and passes through rendering unchanged.
pub enum MdEvent {
    InlineMath(String),
    DisplayMath(String),
    ImageStart(String),
    ImageEnd,
    Text(String),
    /// The start of a code block, with its fence info (none for an indented block).
    CodeBlockStart(Option<String>),
    CodeBlockEnd,
    SoftBreak,
    TableStart,
    TableEnd,
    TableHeadStart,
    TableHeadEnd,
    TableRowStart,
    TableRowEnd,
    TableCellStart,
    TableCellEnd,
    Other,
}

pub open spec fn empty_text(r: Option<Rendered>) -> bool {
    r matches Some(p) && piece(p) == plain(Seq::empty())
}

pub open spec fn emits(r: Option<Rendered>, expected: (bool, Seq<char>)) -> bool {
    r matches Some(p) && piece(p) == expected
}

/// Appends each cell wrapped in `open` and `close` to `out`.
fn push_cells(out: &mut String, open: &str, close: &str, cells: &Vec<&str>)
    ensures
        final(out)@ == old(out)@ + cells_html(open@, close@, str_texts(cells@)),
{
    let ghost start = out@;
    let mut i: usize = 0;
    while i < cells.len()
        invariant
            i <= cells@.len(),
            out@ == start + cells_html(open@, close@, str_texts(cells@.subrange(0, i as int))),
        decreases cells@.len() - i,
    {
        out.append(open);
        out.append(cells[i]);
        out.append(close);
        proof {
            let next = str_texts(cells@.subrange(0, i + 1));
            assert(next.drop_last() =~= str_texts(cells@.subrange(0, i as int)));
            assert(next.last() == cells@[i as int]@);
        }
        i = i + 1;
    }
    assert(cells@.subrange(0, cells@.len() as int) =~= cells@);
}

impl MarkdownEventProcessor {
    /// An inline formula as an equation image; line breaks are dropped.
    pub fn process_inline_math(&self, text: &str) -> (r: Rendered)
        ensures
            piece(r) == html(inline_math_html(one_line(text@))),
    {
        proof {
            reveal_strlit("");
            assert(""@ =~= Seq::<char>::empty());
        }
        let eq = replace_chars(text, '\n', '\r', "");
        let mut out = String::from_str("<img eeimg=\"1\" src=\"//www.zhihu.com/equation?tex=");
        out.append(eq.as_str());
        out.append("\" alt=\"");
        out.append(eq.as_str());
        out.append("\"/>");
        Rendered::Html(out)
    }

    /// A display formula as an equation image; line breaks are dropped.
    pub fn process_display_math(&self, text: &str) -> (r: Rendered)
        ensures
            piece(r) == html(display_math_html(one_line(text@))),
    {
        proof {
            reveal_strlit("");
            assert(""@ =~= Seq::<char>::empty());
        }
        let eq = replace_chars(text, '\n', '\r', "");
        let mut out = String::from_str("<img eeimg=\"1\" src=\"//www.zhihu.com/equation?tex=");
        out.append(eq.as_str());
        out.append("\\\\\" alt=\"");
        out.append(eq.as_str());
        out.append("\\\\\"/>");
        Rendered::Html(out)
    }

    /// Starts collecting an image: its URL is kept and its caption starts
    /// empty; nothing is emitted yet.
    pub fn process_image_start(&mut self, dest_url: &str) -> (r: Rendered)
        ensures
            piece(r) == plain(Seq::empty()),
            final(self).image_state.url matches Some(u) && u@ == dest_url@,
            final(self).image_state.alt matches Some(a) && a@.len() == 0,
            final(self).code_block_state == old(self).code_block_state,
            final(self).table_state == old(self).table_state,
    {
        self.image_state.url = Some(String::from_str(dest_url));
        self.image_state.alt = Some(String::new());
        Rendered::Text(String::new())
    }

    /// Adds text to the caption of the image being collected.
    pub fn process_image_alt_text(&mut self, text: &str) -> (r: Rendered)
        ensures
            piece(r) == plain(Seq::empty()),
            final(self).image_state.url == old(self).image_state.url,
            old(self).image_state.alt is None ==> final(self).image_state.alt is None,
            old(self).image_state.alt matches Some(a) ==> final(self).image_state.alt matches Some(b)
                && b@ == a@ + text@,
            final(self).code_block_state == old(self).code_block_state,
            final(self).table_state == old(self).table_state,
    {
        match &mut self.image_state.alt {
            Some(alt) => alt.append(text),
            None => {},
        }
        Rendered::Text(String::new())
    }

    /// Ends the image being collected: emits it with its caption and forgets it.
    pub fn process_image_end(&mut self) -> (r: Rendered)
        requires
            old(self).image_state.url is Some,
        ensures
            piece(r) == html(
                image_html(
                    old(self).image_state.url->Some_0@,
                    match old(self).image_state.alt {
                        Some(a) => a@,
                        None => Seq::empty(),
                    },
                ),
            ),
            final(self).image_state.url is None,
            final(self).image_state.alt is None,
            final(self).code_block_state == old(self).code_block_state,
            final(self).table_state == old(self).table_state,
    {
        let mut url: Option<String> = None;
        std::mem::swap(&mut url, &mut self.image_state.url);
        let mut alt: Option<String> = None;
        std::mem::swap(&mut alt, &mut self.image_state.alt);
        let url = match url {
            Some(u) => u,
            None => String::new(),
        };
        let caption = match alt {
            Some(a) => a,
            None => String::new(),
        };
        let mut out = String::from_str("<img src=\"");
        out.append(url.as_str());
        out.append("\" data-caption=\"");
        out.append(caption.as_str());
        out.append("\" data-size=\"normal\" data-watermark=\"watermark\" data-original-src=\"");
        out.append(url.as_str());
        out.append("\" data-watermark-src=\"\" data-private-watermark-src=\"\" />");
        Rendered::Html(out)
    }

    /// Opens a code block, labelled with the trimmed fence info (none for an
    /// indented block).
    pub fn process_code_block_start(&mut self, fence_info: Option<&str>) -> (r: Rendered)
        ensures
            piece(r) == html(
                code_block_html(
                    match fence_info {
                        Some(info) => whitespace_trimmed(info@),
                        None => Seq::empty(),
                    },
                ),
            ),
            final(self).code_block_state.active,
            final(self).code_block_state.content == old(self).code_block_state.content,
            final(self).code_block_state.info == old(self).code_block_state.info,
            final(self).image_state == old(self).image_state,
            final(self).table_state == old(self).table_state,
    {
        self.code_block_state.active = true;
        let lang = match fence_info {
            Some(info) => trim_whitespace(info),
            None => String::new(),
        };
        let mut out = String::from_str("<pre lang=\"");
        out.append(lang.as_str());
        out.append("\">");
        Rendered::Html(out)
    }

    /// Closes a code block.
    pub fn process_code_block_end(&mut self) -> (r: Rendered)
        ensures
            piece(r) == html("</pre>"@),
            !final(self).code_block_state.active,
            final(self).code_block_state.content == old(self).code_block_state.content,
            final(self).code_block_state.info == old(self).code_block_state.info,
            final(self).image_state == old(self).image_state,
            final(self).table_state == old(self).table_state,
    {
        self.code_block_state.active = false;
        Rendered::Html(String::from_str("</pre>"))
    }

    /// A soft line break: kept inside a code block, a space elsewhere.
    pub fn process_soft_break(&self, in_code_block: bool) -> (r: Rendered)
        ensures
            piece(r) == plain(if in_code_block { "\n"@ } else { " "@ }),
    {
        if in_code_block {
            Rendered::Text(String::from_str("\n"))
        } else {
            Rendered::Text(String::from_str(" "))
        }
    }

    /// Text: kept as text inside a code block; elsewhere emitted as HTML with
    /// each line break turned into a space.
    pub fn process_text(&self, text: &str, in_code_block: bool) -> (r: Rendered)
        ensures
            in_code_block ==> piece(r) == plain(text@),
            !in_code_block ==> piece(r) == html(replaced(text@, '\n', '\n', " "@)),
    {
        if in_code_block {
            Rendered::Text(String::from_str(text))
        } else {
            Rendered::Html(replace_chars(text, '\n', '\n', " "))
        }
    }

    /// A collected table as one HTML table.
    pub fn process_table(&self, headers: Vec<&str>, rows: Vec<Vec<&str>>) -> (r: Rendered)
        ensures
            piece(r) == html(table_html(str_texts(headers@), str_rows_texts(rows@))),
    {
        let mut out = String::from_str(
            "<table data-draft-node=\"block\" data-draft-type=\"table\" data-size=\"normal\"><tbody>",
        );
        let ghost head = out@;
        if headers.len() > 0 {
            out.append("<tr>");
            push_cells(&mut out, "<th>", "</th>", &headers);
            out.append("</tr>");
        }
        let ghost start = out@;
        let mut i: usize = 0;
        while i < rows.len()
            invariant
                i <= rows@.len(),
                out@ == start + body_rows_html(str_rows_texts(rows@.subrange(0, i as int))),
            decreases rows@.len() - i,
        {
            out.append("<tr>");
            push_cells(&mut out, "<td>", "</td>", &rows[i]);
            out.append("</tr>");
            proof {
                let next = str_rows_texts(rows@.subrange(0, i + 1));
                assert(next.drop_last() =~= str_rows_texts(rows@.subrange(0, i as int)));
                assert(next.last() == str_texts(rows@[i as int]@));
            }
            i = i + 1;
        }
        assert(rows@.subrange(0, rows@.len() as int) =~= rows@);
        out.append("</tbody></table>");
        Rendered::Html(out)
    }
}

impl MarkdownEventProcessor {
    /// Renders one parser event, updating the image, code-block and table
    /// state; `None` means the event passes through unchanged. Text goes to
    /// the caption of an image being collected, else to the cell of a table
    /// being collected, else is rendered as text.
    pub fn process_event(&mut self, event: MdEvent) -> (r: Option<Rendered>)
        requires
            event is ImageEnd ==> old(self).image_state.url is Some,
        ensures
            match event {
                MdEvent::InlineMath(t) => emits(r, html(inline_math_html(one_line(t@))))
                    && *final(self) == *old(self),
                MdEvent::DisplayMath(t) => emits(r, html(display_math_html(one_line(t@))))
                    && *final(self) == *old(self),
                MdEvent::ImageStart(u) => empty_text(r) && (final(self).image_state.url matches Some(
                    x,
                ) && x@ == u@) && (final(self).image_state.alt matches Some(a) && a@.len() == 0),
                MdEvent::ImageEnd => emits(
                    r,
                    html(
                        image_html(
                            old(self).image_state.url->Some_0@,
                            match old(self).image_state.alt {
                                Some(a) => a@,
                                None => Seq::empty(),
                            },
                        ),
                    ),
                ) && final(self).image_state.url is None && final(self).image_state.alt is None,
                MdEvent::Text(t) => if old(self).image_state.url is Some {
                    empty_text(r) && final(self).image_state.url == old(self).image_state.url && (
                    old(self).image_state.alt matches Some(a) ==> (final(self).image_state.alt matches Some(b) && b@ == a@ + t@))
                } else if old(self).table_state.collecting {
                    empty_text(r) && final(self).table_state.current_cell_content@ == old(self).table_state.current_cell_content@ + t@
                } else if old(self).code_block_state.active {
                    emits(r, plain(t@)) && *final(self) == *old(self)
                } else {
                    emits(r, html(replaced(t@, '\n', '\n', " "@))) && *final(self) == *old(self)
                },
                MdEvent::CodeBlockStart(info) => emits(
                    r,
                    html(
                        code_block_html(
                            match info {
                                Some(i) => whitespace_trimmed(i@),
                                None => Seq::empty(),
                            },
                        ),
                    ),
                ) && final(self).code_block_state.active,
                MdEvent::CodeBlockEnd => emits(r, html("</pre>"@))
                    && !final(self).code_block_state.active,
                MdEvent::SoftBreak => emits(
                    r,
                    plain(
                        if old(self).code_block_state.active {
                            "\n"@
                        } else {
                            " "@
                        },
                    ),
                ) && *final(self) == *old(self),
                MdEvent::TableStart => empty_text(r) && final(self).table_state.collecting
                    && final(self).table_state.headers@.len() == 0
                    && final(self).table_state.rows@.len() == 0,
                MdEvent::TableEnd => emits(
                    r,
                    html(
                        table_html(
                            texts(old(self).table_state.headers@),
                            rows_texts(old(self).table_state.rows@),
                        ),
                    ),
                ) && final(self).table_state.is_empty_state(),
                MdEvent::TableHeadStart => empty_text(r) && final(self).table_state.in_head,
                MdEvent::TableHeadEnd => empty_text(r) && !final(self).table_state.in_head,
                MdEvent::TableRowStart => empty_text(r) && *final(self) == *old(self),
                MdEvent::TableRowEnd => empty_text(r) && row_finished(
                    old(self).table_state,
                    final(self).table_state,
                ),
                MdEvent::TableCellStart => empty_text(r) && *final(self) == *old(self),
                MdEvent::TableCellEnd => empty_text(r) && cell_finished(
                    old(self).table_state,
                    final(self).table_state,
                ),
                MdEvent::Other => r is None && *final(self) == *old(self),
            },
    {
        match event {
            MdEvent::InlineMath(t) => Some(self.process_inline_math(t.as_str())),
            MdEvent::DisplayMath(t) => Some(self.process_display_math(t.as_str())),
            MdEvent::ImageStart(u) => Some(self.process_image_start(u.as_str())),
            MdEvent::ImageEnd => Some(self.process_image_end()),
            MdEvent::Text(t) => {
                if self.is_collecting_image() {
                    Some(self.process_image_alt_text(t.as_str()))
                } else if self.is_collecting_table() {
                    self.table_state.add_cell_content(t.as_str());
                    Some(Rendered::Text(String::new()))
                } else {
                    let in_code = self.in_code_block();
                    Some(self.process_text(t.as_str(), in_code))
                }
            },
            MdEvent::CodeBlockStart(info) => match info {
                Some(i) => Some(self.process_code_block_start(Some(i.as_str()))),
                None => Some(self.process_code_block_start(None)),
            },
            MdEvent::CodeBlockEnd => Some(self.process_code_block_end()),
            MdEvent::SoftBreak => {
                let in_code = self.in_code_block();
                Some(self.process_soft_break(in_code))
            },
            MdEvent::TableStart => {
                self.table_state.start_collecting();
                Some(Rendered::Text(String::new()))
            },
            MdEvent::TableEnd => {
                let rendered = {
                    let headers = self.table_state.get_headers_refs();
                    let rows = self.table_state.get_rows_refs();
                    proof {
                        assert(str_texts(headers@) =~= texts(self.table_state.headers@));
                        assert(str_rows_texts(rows@) =~= rows_texts(self.table_state.rows@)) by {
                            assert forall|i: int| 0 <= i < rows@.len() implies str_texts(
                                #[trigger] rows@[i]@,
                            ) =~= texts(self.table_state.rows@[i]@) by {}
                        }
                    }
                    self.process_table(headers, rows)
                };
                self.table_state.reset();
                Some(rendered)
            },
            MdEvent::TableHeadStart => {
                self.table_state.in_head = true;
                Some(Rendered::Text(String::new()))
            },
            MdEvent::TableHeadEnd => {
                self.table_state.in_head = false;
                Some(Rendered::Text(String::new()))
            },
            MdEvent::TableRowStart => Some(Rendered::Text(String::new())),
            MdEvent::TableRowEnd => {
                self.table_state.finish_row();
                Some(Rendered::Text(String::new()))
            },
            MdEvent::TableCellStart => Some(Rendered::Text(String::new())),
            MdEvent::TableCellEnd => {
                self.table_state.finish_cell();
                Some(Rendered::Text(String::new()))
            },
            MdEvent::Other => None,
        }
    }
}

} // verus!
