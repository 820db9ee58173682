use vstd::prelude::*;
use crate::editor_content::push_char;

verus! {

/// Tab stops sit at every multiple of this many columns.
pub const TAB_SIZE: usize = 8;

/// A sequence of `n` spaces.
pub open spec fn spaces(n: nat) -> Seq<char> {
    Seq::new(n, |i: int| ' ')
}

/// How many spaces a tab emits when `col` characters are already on the line:
/// enough to reach the next tab stop, and at least one.
pub open spec fn tab_width(col: nat) -> nat {
    (TAB_SIZE - col % (TAB_SIZE as nat)) as nat
}

/// The render form of a raw line: each tab is replaced by the spaces that
/// carry it to the next tab stop, counted from the start of the line.
pub open spec fn expand(raw: Seq<char>) -> Seq<char>
    decreases raw.len(),
{
    if raw.len() == 0 {
        Seq::empty()
    } else {
        let head = expand(raw.drop_last());
        let c = raw.last();
        if c == '\t' {
            head + spaces(tab_width(head.len()))
        } else {
            head.push(c)
        }
    }
}

/// A line without tab characters renders as itself.
pub proof fn lemma_expand_without_tabs(raw: Seq<char>)
    requires
        forall|i: int| 0 <= i < raw.len() ==> raw[i] != '\t',
    ensures
        expand(raw) == raw,
    decreases raw.len(),
{
    if raw.len() > 0 {
        lemma_expand_without_tabs(raw.drop_last());
        assert(expand(raw) =~= raw);
    }
}

/// The render form is never shorter than the raw content.
pub proof fn lemma_expand_not_shorter(raw: Seq<char>)
    ensures
        expand(raw).len() >= raw.len(),
    decreases raw.len(),
{
    if raw.len() > 0 {
        lemma_expand_not_shorter(raw.drop_last());
    }
}

/// A tab emits at least one space and ends exactly on the next tab stop,
/// measured from the start of the line: a tab at column 0 takes 8 columns,
/// one at column 6 takes 2.
pub proof fn lemma_tab_reaches_next_stop(raw: Seq<char>)
    requires
        raw.len() > 0,
        raw.last() == '\t',
    ensures
        expand(raw) == expand(raw.drop_last()) + spaces(
            (TAB_SIZE - expand(raw.drop_last()).len() % 8) as nat,
        ),
        expand(raw).len() % 8 == 0,
        expand(raw.drop_last()).len() < expand(raw).len() <= expand(raw.drop_last()).len() + 8,
{
}

pub struct Row {
    pub row_content: String,
    render: String,
}

impl Row {
    /// The render form is the expansion of the raw content.
    pub open spec fn wf(&self) -> bool {
        self.render_view() == expand(self.raw_view())
    }

    pub closed spec fn raw_view(&self) -> Seq<char> {
        self.row_content@
    }

    pub closed spec fn render_view(&self) -> Seq<char> {
        self.render@
    }

    /// Number of characters of the raw content.
    pub fn raw_len(&self) -> (r: usize)
        ensures
            r == self.raw_view().len(),
    {
        self.row_content.as_str().unicode_len()
    }

    /// Two loaded rows with the same raw content have the same render form:
    /// rendering depends on the raw content alone.
    pub proof fn lemma_render_determined(a: &Row, b: &Row)
        requires
            a.wf(),
            b.wf(),
            a.raw_view() == b.raw_view(),
        ensures
            a.render_view() == b.render_view(),
    {
    }

    pub fn new(row_content: String, render: String) -> (r: Row)
        ensures
            r.raw_view() == row_content@,
            r.render_view() == render@,
    {
        Row { row_content, render }
    }
}

pub struct EditorRows {
    row_contents: Vec<Row>,
}

/// The document is the sequence of its raw lines.
impl View for EditorRows {
    type V = Seq<Seq<char>>;

    closed spec fn view(&self) -> Seq<Seq<char>> {
        self.row_contents@.map_values(|r: Row| r.raw_view())
    }
}

impl EditorRows {
    /// Every line holds the expansion of its raw content.
    pub closed spec fn wf(&self) -> bool {
        forall|i: int| 0 <= i < self.row_contents@.len() ==> #[trigger] self.row_contents@[i].wf()
    }

    /// Loads a document from its lines, in order, computing each render form.
    pub fn new(lines: Vec<String>) -> (r: EditorRows)
        ensures
            r.wf(),
            r@ == lines@.map_values(|s: String| s@),
    {
        let mut row_contents: Vec<Row> = Vec::new();
        let n = lines.len();
        let mut i: usize = 0;
        while i < n
            invariant
                n == lines@.len(),
                i <= n,
                row_contents@.len() == i,
                forall|j: int| 0 <= j < i ==> #[trigger] row_contents@[j].wf(),
                forall|j: int| 0 <= j < i ==> #[trigger] row_contents@[j].raw_view() == lines@[j]@,
            decreases n - i,
        {
            let mut row = Row::new(lines[i].clone(), String::new());
            Self::render_row(&mut row);
            row_contents.push(row);
            i = i + 1;
        }
        let r = EditorRows { row_contents };
        assert(r@ =~= lines@.map_values(|s: String| s@));
        r
    }

    pub fn number_of_rows(&self) -> (r: usize)
        ensures
            r == self@.len(),
    {
        self.row_contents.len()
    }

    pub fn get_row(&self, at: usize) -> (r: &Row)
        requires
            at < self@.len(),
        ensures
            r.raw_view() == self@[at as int],
            self.wf() ==> r.wf(),
    {
        &self.row_contents[at]
    }

    /// Fills the render form of a row from its raw content, whatever render
    /// form it held before; a line without tabs renders as itself.
    pub fn render_row(row: &mut Row)
        ensures
            final(row).raw_view() == old(row).raw_view(),
            final(row).wf(),
            final(row).render_view() == expand(old(row).raw_view()),
            !old(row).raw_view().contains('\t') ==> final(row).render_view() == old(
                row,
            ).raw_view(),
    {
        proof {
            if !row.row_content@.contains('\t') {
                assert forall|i: int| 0 <= i < row.row_content@.len() implies row.row_content@[i]
                    != '\t' by {
                    if row.row_content@[i] == '\t' {
                        assert(row.row_content@.contains('\t'));
                    }
                }
                lemma_expand_without_tabs(row.row_content@);
            }
        }
        let n = row.row_content.as_str().unicode_len();
        let ghost raw = row.row_content@;
        let mut render = String::new();
        // the column already reached, modulo the tab size
        let mut index: usize = 0;
        let mut i: usize = 0;
        while i < n
            invariant
                n == raw.len(),
                raw == row.row_content@,
                i <= n,
                render@ == expand(raw.subrange(0, i as int)),
                index == render@.len() % (TAB_SIZE as nat),
            decreases n - i,
        {
            let c = row.row_content.as_str().get_char(i);
            let ghost head = render@;
            assert(raw.subrange(0, i + 1).drop_last() =~= raw.subrange(0, i as int));
            if c == '\t' {
                let width = TAB_SIZE - index;
                let mut k: usize = 0;
                while k < width
                    invariant
                        k <= width,
                        width == TAB_SIZE - index,
                        index == head.len() % (TAB_SIZE as nat),
                        render@ == head + spaces(k as nat),
                    decreases width - k,
                {
                    push_char(&mut render, ' ');
                    k = k + 1;
                    assert(render@ =~= head + spaces(k as nat));
                }
                index = 0;
                assert((head.len() + width) % 8 == 0);
            } else {
                push_char(&mut render, c);
                index = (index + 1) % TAB_SIZE;
            }
            i = i + 1;
        }
        assert(raw.subrange(0, n as int) =~= raw);
        row.render = render;
    }

    pub fn get_render(&self, at: usize) -> (r: &String)
        requires
            self.wf(),
            at < self@.len(),
        ensures
            r@ == expand(self@[at as int]),
    {
        assert(self.row_contents@[at as int].wf());
        &self.row_contents[at].render
    }

    fn get_editor_row(&self, at: usize) -> (r: &Row)
        requires
            at < self@.len(),
        ensures
            r.raw_view() == self@[at as int],
            self.wf() ==> r.wf(),
    {
        &self.row_contents[at]
    }
}

} // verus!
