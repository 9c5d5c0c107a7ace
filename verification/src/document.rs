//! Planning and filling the output document.
//!
//! The translated text is split into lines; every blank (whitespace-only)
//! line becomes one explicit paragraph break, every other line one paragraph,
//! in the order of the text. [`plan_document`] computes that plan;
//! [`fill_document`] pushes it into a document of the PDF layout crate. The
//! embedding application loads the font, creates the document and writes the
//! rendered file.

use vstd::prelude::*;

verus! {

/// The characters with the Unicode `White_Space` property: exactly those that
/// count as blank when a line is examined.
pub open spec fn is_space_char(c: char) -> bool {
    ||| c == ' '
    ||| c == '\t'
    ||| c == '\n'
    ||| c == '\u{0b}'
    ||| c == '\u{0c}'
    ||| c == '\r'
    ||| c == '\u{85}'
    ||| c == '\u{a0}'
    ||| c == '\u{1680}'
    ||| c == '\u{2000}'
    ||| c == '\u{2001}'
    ||| c == '\u{2002}'
    ||| c == '\u{2003}'
    ||| c == '\u{2004}'
    ||| c == '\u{2005}'
    ||| c == '\u{2006}'
    ||| c == '\u{2007}'
    ||| c == '\u{2008}'
    ||| c == '\u{2009}'
    ||| c == '\u{200a}'
    ||| c == '\u{2028}'
    ||| c == '\u{2029}'
    ||| c == '\u{202f}'
    ||| c == '\u{205f}'
    ||| c == '\u{3000}'
}

/// Whether one character counts as whitespace.
pub fn is_space(c: char) -> (b: bool)
    ensures
        b == is_space_char(c),
{
    c == ' ' || c == '\t' || c == '\n' || c == '\u{0b}' || c == '\u{0c}' || c == '\r' || c
        == '\u{85}' || c == '\u{a0}' || c == '\u{1680}' || c == '\u{2000}' || c == '\u{2001}' || c
        == '\u{2002}' || c == '\u{2003}' || c == '\u{2004}' || c == '\u{2005}' || c == '\u{2006}'
        || c == '\u{2007}' || c == '\u{2008}' || c == '\u{2009}' || c == '\u{200a}' || c
        == '\u{2028}' || c == '\u{2029}' || c == '\u{202f}' || c == '\u{205f}' || c == '\u{3000}'
}

/// A line is blank when every one of its characters is whitespace; in
/// particular the empty line is blank.
pub open spec fn line_is_blank(l: Seq<char>) -> bool {
    forall|i: int| 0 <= i < l.len() ==> is_space_char(l[i])
}

/// Whether a whole line counts as blank.
pub fn is_blank_line(line: &str) -> (b: bool)
    ensures
        b == line_is_blank(line@),
{
    let n = line.unicode_len();
    let mut i: usize = 0;
    while i < n
        invariant
            n == line@.len(),
            i <= n,
            forall|k: int| 0 <= k < i ==> is_space_char(line@[k]),
        decreases n - i,
    {
        if !is_space(line.get_char(i)) {
            assert(!is_space_char(line@[i as int]));
            return false;
        }
        i += 1;
    }
    true
}

/// The position of the first line feed in `s`, or `s.len()` when `s` holds
/// none.
pub open spec fn first_line_end(s: Seq<char>) -> nat
    decreases s.len(),
{
    if s.len() == 0 {
        0
    } else if s[0] == '\n' {
        0
    } else {
        (1 + first_line_end(s.drop_first())) as nat
    }
}

/// A scan that saw no line feed before position `i`, and one at `i` unless
/// `i` is the end, has found the first line end.
pub proof fn lemma_first_line_end_at(s: Seq<char>, i: int)
    requires
        0 <= i <= s.len(),
        forall|j: int| 0 <= j < i ==> s[j] != '\n',
        i < s.len() ==> s[i] == '\n',
    ensures
        first_line_end(s) == i,
    decreases i,
{
    if i == 0 {
    } else {
        assert(s[0] != '\n');
        lemma_first_line_end_at(s.drop_first(), i - 1);
    }
}

/// A line as the splitting yields it: with one trailing carriage return
/// removed, so that both line-feed and carriage-return-line-feed endings
/// produce the same line.
pub open spec fn strip_cr(l: Seq<char>) -> Seq<char> {
    if l.len() > 0 && l[l.len() - 1] == '\r' {
        l.drop_last()
    } else {
        l
    }
}

/// The lines of a text: the pieces between line feeds, each with a trailing
/// carriage return removed; a trailing line feed ends the last line without
/// opening an empty one.
pub open spec fn lines_of(s: Seq<char>) -> Seq<Seq<char>>
    decreases s.len(),
{
    if s.len() == 0 {
        Seq::empty()
    } else if first_line_end(s) >= s.len() {
        seq![strip_cr(s)]
    } else {
        seq![strip_cr(s.take(first_line_end(s) as int))] + lines_of(
            s.skip(first_line_end(s) as int + 1),
        )
    }
}

/// What one line contributes to the document: a paragraph carrying its text,
/// or a break when the line is blank.
pub open spec fn block_of_line(l: Seq<char>) -> Option<Seq<char>> {
    if line_is_blank(l) {
        None
    } else {
        Some(l)
    }
}

/// The planned document of a text: one block per line, in line order.
pub open spec fn plan_of(s: Seq<char>) -> Seq<Option<Seq<char>>>
    decreases s.len(),
{
    if s.len() == 0 {
        Seq::empty()
    } else if first_line_end(s) >= s.len() {
        seq![block_of_line(strip_cr(s))]
    } else {
        seq![block_of_line(strip_cr(s.take(first_line_end(s) as int)))] + plan_of(
            s.skip(first_line_end(s) as int + 1),
        )
    }
}

/// The plan of a text carries exactly its lines: block by block, each the
/// contribution of the line in the same position.
pub proof fn lemma_plan_matches_lines(s: Seq<char>)
    ensures
        plan_of(s).len() == lines_of(s).len(),
        forall|i: int| 0 <= i < plan_of(s).len() ==> plan_of(s)[i] == block_of_line(lines_of(s)[i]),
    decreases s.len(),
{
    if s.len() == 0 {
    } else if first_line_end(s) >= s.len() {
    } else {
        lemma_plan_matches_lines(s.skip(first_line_end(s) as int + 1));
    }
}

/// One element of the output document.
#[derive(Debug, PartialEq)]
pub enum DocElement {
    /// One non-blank line, rendered as one paragraph.
    TextParagraph { text: String },
    /// One blank line, rendered as one explicit paragraph break.
    ParagraphBreak,
}

impl DocElement {
    /// The block this element stands for.
    pub open spec fn spec_block(&self) -> Option<Seq<char>> {
        match *self {
            DocElement::TextParagraph { text } => Some(text@),
            DocElement::ParagraphBreak => None,
        }
    }
}

/// The blocks of an element sequence.
pub open spec fn blocks_of(elements: Seq<DocElement>) -> Seq<Option<Seq<char>>> {
    elements.map_values(|e: DocElement| e.spec_block())
}

/// Splits a text into its plan: one paragraph per non-blank line, one break
/// per blank line, in the order of the text's lines.
pub fn plan_document(text: &str) -> (elements: Vec<DocElement>)
    ensures
        blocks_of(elements@) == plan_of(text@),
{
    let n = text.unicode_len();
    let mut elements: Vec<DocElement> = Vec::new();
    let mut start: usize = 0;
    let mut i: usize = 0;
    proof {
        assert(text@.skip(0) =~= text@);
        assert(blocks_of(elements@) + plan_of(text@) =~= plan_of(text@));
    }
    while i < n
        invariant
            n == text@.len(),
            start <= i <= n,
            forall|k: int| start <= k < i ==> text@[k] != '\n',
            blocks_of(elements@) + plan_of(text@.skip(start as int)) == plan_of(text@),
        decreases n - i,
    {
        if text.get_char(i) == '\n' {
            let element = line_element(text, start, i);
            proof {
                let rem = text@.skip(start as int);
                assert forall|j: int| 0 <= j < i - start implies rem[j] != '\n' by {
                    assert(rem[j] == text@[start + j]);
                }
                assert(rem[i - start] == text@[i as int]);
                lemma_first_line_end_at(rem, i - start);
                assert(rem.take(i - start) =~= text@.subrange(start as int, i as int));
                assert(rem.skip(i - start + 1) =~= text@.skip(i as int + 1));
                assert(blocks_of(elements@.push(element)) =~= blocks_of(elements@).push(
                    element.spec_block(),
                ));
                assert(blocks_of(elements@.push(element)) + plan_of(text@.skip(i as int + 1)) =~= (
                blocks_of(elements@) + plan_of(text@.skip(start as int))));
            }
            elements.push(element);
            start = i + 1;
        }
        i += 1;
    }
    if start < n {
        let element = line_element(text, start, n);
        proof {
            let rem = text@.skip(start as int);
            assert forall|j: int| 0 <= j < rem.len() implies rem[j] != '\n' by {
                assert(rem[j] == text@[start + j]);
            }
            lemma_first_line_end_at(rem, rem.len() as int);
            assert(rem.take(rem.len() as int) =~= rem);
            assert(rem =~= text@.subrange(start as int, n as int));
            assert(blocks_of(elements@.push(element)) =~= blocks_of(elements@).push(
                element.spec_block(),
            ));
            assert(blocks_of(elements@.push(element)) =~= (blocks_of(elements@) + plan_of(
                text@.skip(start as int),
            )));
        }
        elements.push(element);
    } else {
        proof {
            assert(text@.skip(start as int) =~= Seq::<char>::empty());
            assert(blocks_of(elements@) + plan_of(text@.skip(start as int)) =~= blocks_of(
                elements@,
            ));
        }
    }
    elements
}

/// The number of paragraphs of a plan.
pub open spec fn paragraph_count(blocks: Seq<Option<Seq<char>>>) -> nat
    decreases blocks.len(),
{
    if blocks.len() == 0 {
        0
    } else if blocks.last() is Some {
        paragraph_count(blocks.drop_last()) + 1
    } else {
        paragraph_count(blocks.drop_last())
    }
}

/// The number of breaks of a plan.
pub open spec fn break_count(blocks: Seq<Option<Seq<char>>>) -> nat
    decreases blocks.len(),
{
    if blocks.len() == 0 {
        0
    } else if blocks.last() is None {
        break_count(blocks.drop_last()) + 1
    } else {
        break_count(blocks.drop_last())
    }
}

/// The number of blank lines of a text's line sequence.
pub open spec fn blank_line_count(lines: Seq<Seq<char>>) -> nat
    decreases lines.len(),
{
    if lines.len() == 0 {
        0
    } else if line_is_blank(lines.last()) {
        blank_line_count(lines.drop_last()) + 1
    } else {
        blank_line_count(lines.drop_last())
    }
}

/// The number of non-blank lines of a text's line sequence.
pub open spec fn nonblank_line_count(lines: Seq<Seq<char>>) -> nat
    decreases lines.len(),
{
    if lines.len() == 0 {
        0
    } else if line_is_blank(lines.last()) {
        nonblank_line_count(lines.drop_last())
    } else {
        nonblank_line_count(lines.drop_last()) + 1
    }
}

proof fn lemma_counts_pointwise(blocks: Seq<Option<Seq<char>>>, lines: Seq<Seq<char>>)
    requires
        blocks.len() == lines.len(),
        forall|i: int| 0 <= i < lines.len() ==> blocks[i] == block_of_line(lines[i]),
    ensures
        paragraph_count(blocks) == nonblank_line_count(lines),
        break_count(blocks) == blank_line_count(lines),
    decreases lines.len(),
{
    if lines.len() > 0 {
        assert(blocks.last() == block_of_line(lines.last()));
        lemma_counts_pointwise(blocks.drop_last(), lines.drop_last());
    }
}

proof fn lemma_counts_cover(blocks: Seq<Option<Seq<char>>>)
    ensures
        paragraph_count(blocks) + break_count(blocks) == blocks.len(),
    decreases blocks.len(),
{
    if blocks.len() > 0 {
        lemma_counts_cover(blocks.drop_last());
    }
}

/// Rendering law: the plan of a text holds exactly one paragraph per
/// non-blank line of the text and one break per blank line, and together
/// they cover every line once.
pub proof fn lemma_document_counts(s: Seq<char>)
    ensures
        paragraph_count(plan_of(s)) == nonblank_line_count(lines_of(s)),
        break_count(plan_of(s)) == blank_line_count(lines_of(s)),
        paragraph_count(plan_of(s)) + break_count(plan_of(s)) == lines_of(s).len(),
{
    lemma_plan_matches_lines(s);
    lemma_counts_pointwise(plan_of(s), lines_of(s));
    lemma_counts_cover(plan_of(s));
}

/// Whether no two blank lines stand next to each other.
pub open spec fn blank_lines_isolated(lines: Seq<Seq<char>>) -> bool {
    forall|i: int|
        0 < i < lines.len() ==> !(line_is_blank(#[trigger] lines[i - 1]) && line_is_blank(
            lines[i],
        ))
}

/// The number of maximal runs of consecutive blank lines.
pub open spec fn blank_run_count(lines: Seq<Seq<char>>) -> nat
    decreases lines.len(),
{
    if lines.len() == 0 {
        0
    } else if line_is_blank(lines.last()) && (lines.len() == 1 || !line_is_blank(
        lines[lines.len() - 2],
    )) {
        blank_run_count(lines.drop_last()) + 1
    } else {
        blank_run_count(lines.drop_last())
    }
}

proof fn lemma_isolated_runs(lines: Seq<Seq<char>>)
    requires
        blank_lines_isolated(lines),
    ensures
        blank_run_count(lines) == blank_line_count(lines),
    decreases lines.len(),
{
    if lines.len() > 0 {
        assert(blank_lines_isolated(lines.drop_last())) by {
            assert forall|i: int|
                0 < i < lines.drop_last().len() implies !(line_is_blank(
                #[trigger] lines.drop_last()[i - 1],
            ) && line_is_blank(lines.drop_last()[i])) by {
                assert(lines.drop_last()[i - 1] == lines[i - 1]);
                assert(lines.drop_last()[i] == lines[i]);
            }
        }
        lemma_isolated_runs(lines.drop_last());
    }
}

/// Rendering law, counted by runs: in a text where no two blank lines are
/// adjacent, the breaks of the plan count exactly the maximal runs of blank
/// lines. (With adjacent blank lines each one still gets its own break, so
/// there the count of [`lemma_document_counts`] applies instead.)
pub proof fn lemma_document_counts_runs(s: Seq<char>)
    requires
        blank_lines_isolated(lines_of(s)),
    ensures
        paragraph_count(plan_of(s)) == nonblank_line_count(lines_of(s)),
        break_count(plan_of(s)) == blank_run_count(lines_of(s)),
{
    lemma_document_counts(s);
    lemma_isolated_runs(lines_of(s));
}

/// A document of the PDF layout crate; its element list is what the render
/// stage fills before the file is written.
#[verifier::external_type_specification]
#[verifier::external_body]
pub struct ExDocument(genpdf::Document);

/// The blocks a document holds: one entry per element pushed into it, in push
/// order; a paragraph's text, or a break.
pub uninterp spec fn doc_blocks(doc: genpdf::Document) -> Seq<Option<Seq<char>>>;

/// Relies on genpdf::Document::push with genpdf::elements::Paragraph::new:
/// appends one paragraph holding the given text to the document's element
/// list and changes nothing else of the list.
#[verifier::external_body]
fn push_paragraph(doc: &mut genpdf::Document, text: &str)
    ensures
        doc_blocks(*final (doc)) == doc_blocks(*old(doc)).push(Some(text@)),
{
    doc.push(genpdf::elements::Paragraph::new(text));
}

/// Relies on genpdf::Document::push with genpdf::elements::Break::new:
/// appends one break of a single line's height to the document's element
/// list and changes nothing else of the list.
#[verifier::external_body]
fn push_break(doc: &mut genpdf::Document)
    ensures
        doc_blocks(*final (doc)) == doc_blocks(*old(doc)).push(None),
{
    doc.push(genpdf::elements::Break::new(1));
}

/// Fills a document with the plan of a text: one paragraph per non-blank
/// line, one break per blank line, appended in line order after whatever the
/// document already holds.
pub fn fill_document(doc: &mut genpdf::Document, text: &str)
    ensures
        doc_blocks(*final (doc)) == doc_blocks(*old(doc)) + plan_of(text@),
{
    let elements = plan_document(text);
    let mut i: usize = 0;
    proof {
        assert(doc_blocks(*doc) + plan_of(text@).take(0) =~= doc_blocks(*doc));
    }
    while i < elements.len()
        invariant
            blocks_of(elements@) == plan_of(text@),
            i <= elements@.len(),
            doc_blocks(*doc) == doc_blocks(*old(doc)) + plan_of(text@).take(i as int),
        decreases elements@.len() - i,
    {
        proof {
            assert(elements@.len() == plan_of(text@).len());
            assert(elements@[i as int].spec_block() == plan_of(text@)[i as int]);
            assert(plan_of(text@).take(i as int).push(plan_of(text@)[i as int]) =~= plan_of(
                text@,
            ).take(i as int + 1));
        }
        match &elements[i] {
            DocElement::TextParagraph { text: line } => {
                push_paragraph(doc, line.as_str());
            },
            DocElement::ParagraphBreak => {
                push_break(doc);
            },
        }
        proof {
            assert((doc_blocks(*old(doc)) + plan_of(text@).take(i as int)).push(
                plan_of(text@)[i as int],
            ) =~= doc_blocks(*old(doc)) + plan_of(text@).take(i as int + 1));
        }
        i += 1;
    }
    proof {
        assert(plan_of(text@).take(elements@.len() as int) =~= plan_of(text@));
    }
}

/// The element of the line `text[start..end]`, where `end` is the position of
/// the line feed that closes the line, or the end of the text.
fn line_element(text: &str, start: usize, end: usize) -> (element: DocElement)
    requires
        start <= end <= text@.len(),
    ensures
        element.spec_block() == block_of_line(strip_cr(text@.subrange(start as int, end as int))),
{
    let line = if end > start && text.get_char(end - 1) == '\r' {
        proof {
            let l = text@.subrange(start as int, end as int);
            assert(l[l.len() - 1] == text@[end - 1]);
            assert(l.drop_last() =~= text@.subrange(start as int, end as int - 1));
        }
        text.substring_char(start, end - 1)
    } else {
        proof {
            let l = text@.subrange(start as int, end as int);
            if l.len() > 0 {
                assert(l[l.len() - 1] == text@[end - 1]);
            }
        }
        text.substring_char(start, end)
    };
    if is_blank_line(line) {
        DocElement::ParagraphBreak
    } else {
        DocElement::TextParagraph { text: line.to_owned() }
    }
}

} // verus!
