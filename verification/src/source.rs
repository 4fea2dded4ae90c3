//! The combined shader source file and the two stage bodies it is split into.
//!
//! A source file is read line by line. A line that holds the directive marker
//! names the stage that the following lines belong to and is itself dropped;
//! every other line goes, with a line feed behind it, to the body of the stage
//! named last, or nowhere while no stage is named.

use crate::text::{
    chars_of, contains, joined_lines, line_views, lines_of, occurs_in, split_lines,
};
use vstd::prelude::*;

verus! {

/// The stage that the lines being read are assigned to.
#[derive(Clone, Copy, PartialEq, Eq, Structural, Debug)]
pub enum ShaderType {
    Unassigned,
    Vertex,
    Fragment,
}

/// The text assigned to each stage of a shader program.
pub struct ShaderSource {
    pub vertex_source: String,
    pub fragment_source: String,
}

impl ShaderSource {
    /// A source record in which both stage bodies are empty.
    pub fn new() -> (sources: ShaderSource)
        ensures
            sources.vertex_source@ == Seq::<char>::empty(),
            sources.fragment_source@ == Seq::<char>::empty(),
    {
        ShaderSource { vertex_source: String::new(), fragment_source: String::new() }
    }
}

/// The token that makes a line a directive.
pub open spec fn directive_marker() -> Seq<char> {
    "#shader"@
}

/// The token of the directive that opens the vertex stage.
pub open spec fn vertex_marker() -> Seq<char> {
    "#shader vertex"@
}

/// The token of the directive that opens the fragment stage.
pub open spec fn fragment_marker() -> Seq<char> {
    "#shader fragment"@
}

/// What a line does to the cursor: `None` for an ordinary line, else the stage
/// that the directive switches to. The vertex token is looked for first; a
/// directive that names neither stage switches to `ShaderType::Unassigned`.
pub open spec fn directive_of(line: Seq<char>) -> Option<ShaderType> {
    if !occurs_in(directive_marker(), line) {
        None
    } else if occurs_in(vertex_marker(), line) {
        Some(ShaderType::Vertex)
    } else if occurs_in(fragment_marker(), line) {
        Some(ShaderType::Fragment)
    } else {
        Some(ShaderType::Unassigned)
    }
}

/// The stage in force once `lines` have been read: the one that the last
/// directive among them names, `ShaderType::Unassigned` where there is no directive.
pub open spec fn cursor_after(lines: Seq<Seq<char>>) -> ShaderType
    decreases lines.len(),
{
    if lines.len() == 0 {
        ShaderType::Unassigned
    } else {
        match directive_of(lines.last()) {
            Some(stage) => stage,
            None => cursor_after(lines.drop_last()),
        }
    }
}

/// The body that `lines` give to `stage`: each ordinary line that is read
/// while `stage` is in force, in order, each with a line feed behind it.
pub open spec fn stage_body(lines: Seq<Seq<char>>, stage: ShaderType) -> Seq<char>
    decreases lines.len(),
{
    if lines.len() == 0 {
        Seq::empty()
    } else {
        let before = lines.drop_last();
        if directive_of(lines.last()) is None && cursor_after(before) == stage {
            stage_body(before, stage) + lines.last().push('\n')
        } else {
            stage_body(before, stage)
        }
    }
}

fn classify(line: &[char], marker: &[char], vertex: &[char], fragment: &[char]) -> (kind: Option<
    ShaderType,
>)
    requires
        marker@ == directive_marker(),
        vertex@ == vertex_marker(),
        fragment@ == fragment_marker(),
    ensures
        kind == directive_of(line@),
{
    if !contains(line, marker) {
        None
    } else if contains(line, vertex) {
        Some(ShaderType::Vertex)
    } else if contains(line, fragment) {
        Some(ShaderType::Fragment)
    } else {
        Some(ShaderType::Unassigned)
    }
}

/// What `line` does to the cursor.
pub fn directive(line: &[char]) -> (kind: Option<ShaderType>)
    ensures
        kind == directive_of(line@),
{
    let marker = chars_of("#shader");
    let vertex = chars_of("#shader vertex");
    let fragment = chars_of("#shader fragment");
    classify(line, marker.as_slice(), vertex.as_slice(), fragment.as_slice())
}

/// Appends `line` and a line feed to `body`.
pub fn push_line(body: &mut String, line: &[char])
    ensures
        final(body)@ == old(body)@ + line@.push('\n'),
{
    let mut i: usize = 0;
    while i < line.len()
        invariant
            i <= line.len(),
            body@ == old(body)@ + line@.take(i as int),
        decreases line.len() - i,
    {
        body.push(line[i]);
        i += 1;
    }
    body.push('\n');
    proof {
        assert(line@.take(line.len() as int) == line@);
    }
}

/// Assigns each of `lines` to the stage whose directive stands last before it.
pub fn assign_lines(lines: &Vec<Vec<char>>) -> (sources: ShaderSource)
    ensures
        sources.vertex_source@ == stage_body(line_views(lines@), ShaderType::Vertex),
        sources.fragment_source@ == stage_body(line_views(lines@), ShaderType::Fragment),
{
    let marker = chars_of("#shader");
    let vertex = chars_of("#shader vertex");
    let fragment = chars_of("#shader fragment");
    let mut shader_type = ShaderType::Unassigned;
    let mut vertex_source = String::new();
    let mut fragment_source = String::new();
    let ghost all = line_views(lines@);
    let mut i: usize = 0;
    while i < lines.len()
        invariant
            i <= lines.len(),
            all == line_views(lines@),
            marker@ == directive_marker(),
            vertex@ == vertex_marker(),
            fragment@ == fragment_marker(),
            shader_type == cursor_after(all.take(i as int)),
            vertex_source@ == stage_body(all.take(i as int), ShaderType::Vertex),
            fragment_source@ == stage_body(all.take(i as int), ShaderType::Fragment),
        decreases lines.len() - i,
    {
        let line = lines[i].as_slice();
        proof {
            let read = all.take(i + 1);
            assert(read.drop_last() == all.take(i as int));
            assert(read.last() == line@);
        }
        match classify(line, marker.as_slice(), vertex.as_slice(), fragment.as_slice()) {
            Some(stage) => {
                shader_type = stage;
            },
            None => {
                match shader_type {
                    ShaderType::Vertex => push_line(&mut vertex_source, line),
                    ShaderType::Fragment => push_line(&mut fragment_source, line),
                    ShaderType::Unassigned => {},
                }
            },
        }
        i += 1;
    }
    proof {
        assert(all.take(lines.len() as int) == all);
    }
    ShaderSource { vertex_source, fragment_source }
}

/// Splits the text of a combined source file into the bodies of its stages.
pub fn parse_shader_source(text: &str) -> (sources: ShaderSource)
    ensures
        sources.vertex_source@ == stage_body(lines_of(text@), ShaderType::Vertex),
        sources.fragment_source@ == stage_body(lines_of(text@), ShaderType::Fragment),
{
    let chars = chars_of(text);
    let lines = split_lines(chars.as_slice());
    assign_lines(&lines)
}

/// No line of `lines` is a directive.
pub open spec fn all_ordinary(lines: Seq<Seq<char>>) -> bool {
    forall|i: int| 0 <= i < lines.len() ==> directive_of(#[trigger] lines[i]) is None
}

/// A directive line switches the cursor and adds to no body.
pub proof fn lemma_directive_line(before: Seq<Seq<char>>, line: Seq<char>, stage: ShaderType)
    requires
        directive_of(line) is Some,
    ensures
        cursor_after(before.push(line)) == directive_of(line)->0,
        stage_body(before.push(line), stage) == stage_body(before, stage),
{
    assert(before.push(line).drop_last() == before);
}

/// Ordinary lines leave the cursor where it is and go, joined, to the body of
/// the stage in force.
pub proof fn lemma_ordinary_lines(before: Seq<Seq<char>>, block: Seq<Seq<char>>, stage: ShaderType)
    requires
        all_ordinary(block),
    ensures
        cursor_after(before + block) == cursor_after(before),
        stage_body(before + block, stage) == stage_body(before, stage) + (if cursor_after(before)
            == stage {
            joined_lines(block)
        } else {
            Seq::empty()
        }),
    decreases block.len(),
{
    if block.len() == 0 {
        assert(before + block == before);
        assert(stage_body(before, stage) + Seq::<char>::empty() == stage_body(before, stage));
    } else {
        let front = block.drop_last();
        let line = block.last();
        assert(directive_of(block[block.len() - 1]) is None);
        assert forall|i: int| 0 <= i < front.len() implies directive_of(#[trigger] front[i])
            is None by {
            assert(front[i] == block[i]);
        }
        lemma_ordinary_lines(before, front, stage);
        assert((before + block).drop_last() == before + front);
        assert((before + block).last() == line);
        if cursor_after(before) == stage {
            assert(stage_body(before + block, stage) =~= stage_body(before, stage) + joined_lines(
                block,
            ));
        } else {
            assert(stage_body(before + block, stage) =~= stage_body(before, stage)
                + Seq::<char>::empty());
        }
    }
}

/// Ordinary lines at the head of a file reach neither body: with or without
/// them the file gives the same two bodies.
pub proof fn lemma_preamble_discarded(preamble: Seq<Seq<char>>, rest: Seq<Seq<char>>)
    requires
        all_ordinary(preamble),
    ensures
        cursor_after(preamble + rest) == cursor_after(rest),
        stage_body(preamble + rest, ShaderType::Vertex) == stage_body(rest, ShaderType::Vertex),
        stage_body(preamble + rest, ShaderType::Fragment) == stage_body(
            rest,
            ShaderType::Fragment,
        ),
    decreases rest.len(),
{
    if rest.len() == 0 {
        lemma_ordinary_lines(Seq::empty(), preamble, ShaderType::Vertex);
        lemma_ordinary_lines(Seq::empty(), preamble, ShaderType::Fragment);
        assert(Seq::<Seq<char>>::empty() + preamble == preamble);
        assert(preamble + rest == preamble);
        assert(stage_body(preamble, ShaderType::Vertex) =~= Seq::<char>::empty());
        assert(stage_body(preamble, ShaderType::Fragment) =~= Seq::<char>::empty());
    } else {
        lemma_preamble_discarded(preamble, rest.drop_last());
        assert((preamble + rest).drop_last() == preamble + rest.drop_last());
        assert((preamble + rest).last() == rest.last());
    }
}

/// What a file gives that holds, after ordinary lines, one directive and a
/// block of ordinary lines: the stage that the directive names gets the block,
/// joined, and any other stage gets nothing.
pub proof fn lemma_one_block(
    preamble: Seq<Seq<char>>,
    directive: Seq<char>,
    block: Seq<Seq<char>>,
    stage: ShaderType,
)
    requires
        all_ordinary(preamble),
        all_ordinary(block),
        directive_of(directive) is Some,
        stage != ShaderType::Unassigned,
    ensures
        cursor_after(preamble.push(directive) + block) == directive_of(directive)->0,
        stage_body(preamble.push(directive) + block, stage) == (if directive_of(directive) == Some(
            stage,
        ) {
            joined_lines(block)
        } else {
            Seq::empty()
        }),
{
    let opened = preamble.push(directive);
    lemma_ordinary_lines(Seq::empty(), preamble, stage);
    assert(Seq::<Seq<char>>::empty() + preamble == preamble);
    assert(stage_body(preamble, stage) =~= Seq::<char>::empty());
    lemma_directive_line(preamble, directive, stage);
    lemma_ordinary_lines(opened, block, stage);
    assert(stage_body(opened, stage) =~= Seq::<char>::empty());
    if directive_of(directive) == Some(stage) {
        assert(stage_body(opened + block, stage) =~= joined_lines(block));
    } else {
        assert(stage_body(opened + block, stage) =~= Seq::<char>::empty());
    }
}

/// A file with only a vertex block gives a vertex body that is not empty and
/// an empty fragment body.
pub proof fn lemma_vertex_block_only(
    preamble: Seq<Seq<char>>,
    directive: Seq<char>,
    block: Seq<Seq<char>>,
)
    requires
        all_ordinary(preamble),
        all_ordinary(block),
        directive_of(directive) == Some(ShaderType::Vertex),
        block.len() > 0,
    ensures
        stage_body(preamble.push(directive) + block, ShaderType::Vertex) == joined_lines(block),
        stage_body(preamble.push(directive) + block, ShaderType::Vertex).len() > 0,
        stage_body(preamble.push(directive) + block, ShaderType::Fragment).len() == 0,
{
    lemma_one_block(preamble, directive, block, ShaderType::Vertex);
    lemma_one_block(preamble, directive, block, ShaderType::Fragment);
}

/// A file with one vertex block and one fragment block, in either order,
/// gives each stage the lines that follow its directive, joined, and neither
/// body is empty.
pub proof fn lemma_two_blocks(
    preamble: Seq<Seq<char>>,
    first: Seq<char>,
    first_block: Seq<Seq<char>>,
    second: Seq<char>,
    second_block: Seq<Seq<char>>,
)
    requires
        all_ordinary(preamble),
        all_ordinary(first_block),
        all_ordinary(second_block),
        first_block.len() > 0,
        second_block.len() > 0,
        ({
            ||| directive_of(first) == Some(ShaderType::Vertex) && directive_of(second) == Some(
                ShaderType::Fragment,
            )
            ||| directive_of(first) == Some(ShaderType::Fragment) && directive_of(second) == Some(
                ShaderType::Vertex,
            )
        }),
    ensures
        ({
            let lines = (preamble.push(first) + first_block).push(second) + second_block;
            &&& stage_body(lines, directive_of(first)->0) == joined_lines(first_block)
            &&& stage_body(lines, directive_of(second)->0) == joined_lines(second_block)
            &&& stage_body(lines, ShaderType::Vertex).len() > 0
            &&& stage_body(lines, ShaderType::Fragment).len() > 0
        }),
{
    let one = directive_of(first)->0;
    let two = directive_of(second)->0;
    let head = preamble.push(first) + first_block;
    lemma_one_block(preamble, first, first_block, one);
    lemma_one_block(preamble, first, first_block, two);
    lemma_directive_line(head, second, one);
    lemma_directive_line(head, second, two);
    lemma_ordinary_lines(head.push(second), second_block, one);
    lemma_ordinary_lines(head.push(second), second_block, two);
    let lines = head.push(second) + second_block;
    assert(stage_body(lines, one) =~= joined_lines(first_block));
    assert(stage_body(lines, two) =~= joined_lines(second_block));
}

} // verus!
