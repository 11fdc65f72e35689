//! The conversation: its messages as they are shown, and the blocks of content that they are made
//! of.
use vstd::prelude::*;
use vstd::string::*;

use crate::json::Value;
use crate::preview::{push_line, with_line};
use crate::text::{blank, law_blank_is_all_white_space, trim, white_space};

verus! {

broadcast use vstd::string::group_string_axioms;

/// The output of a tool with more lines than this starts out collapsed.
pub const TOOL_AUTO_COLLAPSE_THRESHOLD: usize = 20;

/// Who a message is from.
#[derive(Clone, Copy, Debug, PartialEq, Eq, Structural)]
pub enum MessageRole {
    User,
    Assistant,
    Tool,
    System,
}

/// A message as it is shown.
#[derive(Debug, PartialEq)]
pub struct ConversationMessage {
    pub role: MessageRole,
    pub content: String,
    pub thinking: Option<String>,
    /// Whether only the head of the message is shown.
    pub collapsed: bool,
}

/// The number of line breaks in a text.
pub open spec fn line_breaks(s: Seq<char>) -> nat
    decreases s.len(),
{
    if s.len() == 0 {
        0
    } else {
        line_breaks(s.drop_last()) + if s.last() == '\n' {
            1nat
        } else {
            0nat
        }
    }
}

/// Counts the line breaks in a text, but none after the first `max`.
fn count_line_breaks(s: &str, max: usize) -> (r: usize)
    ensures
        r == if line_breaks(s@) <= max {
            line_breaks(s@)
        } else {
            max as nat
        },
{
    let mut count: usize = 0;
    for c in it: s.chars()
        invariant
            it.seq() == s@,
            count == if line_breaks(s@.take(it.index())) <= max {
                line_breaks(s@.take(it.index()))
            } else {
                max as nat
            },
    {
        assert(s@.take(it.index() + 1).drop_last() =~= s@.take(it.index()));
        if c == '\n' && count < max {
            count = count + 1;
        }
    }
    assert(s@.take(s@.len() as int) =~= s@);
    count
}

impl ConversationMessage {
    /// A message that is shown in full.
    pub fn new(role: MessageRole, content: String, thinking: Option<String>) -> (r:
        ConversationMessage)
        ensures
            r == (ConversationMessage { role, content, thinking, collapsed: false }),
    {
        ConversationMessage { role, content, thinking, collapsed: false }
    }

    /// The output of a tool, collapsed where it has too many lines.
    pub fn tool(content: String) -> (r: ConversationMessage)
        ensures
            r == (ConversationMessage {
                role: MessageRole::Tool,
                content,
                thinking: None,
                collapsed: line_breaks(content@) + 1 > TOOL_AUTO_COLLAPSE_THRESHOLD,
            }),
            r.collapsed <==> line_breaks(content@) >= 20,
    {
        let breaks: usize = count_line_breaks(content.as_str(), TOOL_AUTO_COLLAPSE_THRESHOLD);
        ConversationMessage {
            role: MessageRole::Tool,
            content,
            thinking: None,
            collapsed: breaks + 1 > TOOL_AUTO_COLLAPSE_THRESHOLD,
        }
    }
}

// ---------------------------------------------------------------------------------------------
// Content
// ---------------------------------------------------------------------------------------------

/// A text.
#[derive(Debug, PartialEq)]
pub struct TextContent {
    pub text: String,
}

/// What the model thought.
#[derive(Debug, PartialEq)]
pub struct ThinkingContent {
    pub thinking: String,
    pub thinking_signature: Option<String>,
}

/// An image, in base 64.
#[derive(Debug, PartialEq)]
pub struct ImageContent {
    pub data: String,
    pub mime_type: String,
}

/// A tool that the model wants called.
#[derive(Debug, PartialEq)]
pub struct ToolCall {
    pub id: String,
    pub name: String,
    pub arguments: Value,
    pub thought_signature: Option<String>,
}

/// A block of content.
#[derive(Debug, PartialEq)]
pub enum ContentBlock {
    Text(TextContent),
    Thinking(ThinkingContent),
    Image(ImageContent),
    ToolCall(ToolCall),
}

impl TextContent {
    /// A text.
    pub fn new(text: &str) -> (r: TextContent)
        ensures
            r.text@ == text@,
    {
        TextContent { text: text.to_owned() }
    }
}

impl Clone for ImageContent {
    fn clone(&self) -> (r: ImageContent)
        ensures
            r == *self,
    {
        ImageContent { data: self.data.clone(), mime_type: self.mime_type.clone() }
    }
}

/// The texts of a list of blocks, one below the other.
pub open spec fn text_lines(blocks: Seq<ContentBlock>) -> Seq<char>
    decreases blocks.len(),
{
    if blocks.len() == 0 {
        Seq::empty()
    } else {
        let before = text_lines(blocks.drop_last());
        match blocks.last() {
            ContentBlock::Text(content) => with_line(before, content.text@),
            _ => before,
        }
    }
}

/// The thoughts of a list of blocks, one below the other.
pub open spec fn thinking_lines(blocks: Seq<ContentBlock>) -> Seq<char>
    decreases blocks.len(),
{
    if blocks.len() == 0 {
        Seq::empty()
    } else {
        let before = thinking_lines(blocks.drop_last());
        match blocks.last() {
            ContentBlock::Thinking(content) => with_line(before, content.thinking@),
            _ => before,
        }
    }
}

/// The images of a list of blocks.
pub open spec fn images_of(blocks: Seq<ContentBlock>) -> Seq<ImageContent>
    decreases blocks.len(),
{
    if blocks.len() == 0 {
        Seq::empty()
    } else {
        let before = images_of(blocks.drop_last());
        match blocks.last() {
            ContentBlock::Image(image) => before.push(image),
            _ => before,
        }
    }
}

/// What the model said, and what it thought unless that is blank.
pub fn assistant_content_to_text(blocks: &[ContentBlock]) -> (r: (String, Option<String>))
    ensures
        r.0@ == text_lines(blocks@),
        match r.1 {
            Some(thinking) => !blank(thinking_lines(blocks@)) && thinking@ == thinking_lines(
                blocks@,
            ),
            None => blank(thinking_lines(blocks@)),
        },
{
    let mut text: String = String::new();
    let mut thinking: String = String::new();
    let mut i: usize = 0;
    while i < blocks.len()
        invariant
            i <= blocks@.len(),
            text@ == text_lines(blocks@.take(i as int)),
            thinking@ == thinking_lines(blocks@.take(i as int)),
        decreases blocks@.len() - i,
    {
        assert(blocks@.take(i + 1).drop_last() =~= blocks@.take(i as int));
        match &blocks[i] {
            ContentBlock::Text(content) => push_line(&mut text, content.text.as_str()),
            ContentBlock::Thinking(content) => push_line(
                &mut thinking,
                content.thinking.as_str(),
            ),
            _ => {},
        }
        i = i + 1;
    }
    assert(blocks@.take(i as int) =~= blocks@);
    if trim(thinking.as_str()).is_empty() {
        (text, None)
    } else {
        (text, Some(thinking))
    }
}

/// The text and the images that a list of blocks brings back into the input.
pub fn split_content_blocks_for_input(blocks: &[ContentBlock]) -> (r: (String, Vec<ImageContent>))
    ensures
        r.0@ == text_lines(blocks@),
        r.1@ == images_of(blocks@),
{
    let mut text: String = String::new();
    let mut images: Vec<ImageContent> = Vec::new();
    let mut i: usize = 0;
    while i < blocks.len()
        invariant
            i <= blocks@.len(),
            text@ == text_lines(blocks@.take(i as int)),
            images@ == images_of(blocks@.take(i as int)),
        decreases blocks@.len() - i,
    {
        assert(blocks@.take(i + 1).drop_last() =~= blocks@.take(i as int));
        match &blocks[i] {
            ContentBlock::Text(content) => push_line(&mut text, content.text.as_str()),
            ContentBlock::Image(image) => images.push(image.clone()),
            _ => {},
        }
        i = i + 1;
    }
    assert(blocks@.take(i as int) =~= blocks@);
    (text, images)
}

/// How many blocks the text of an input takes.
pub open spec fn text_blocks(text: Seq<char>) -> int {
    if blank(text) {
        0
    } else {
        1
    }
}

/// Whether `blocks` are the blocks of an input: its text, unless that is blank, and its images.
pub open spec fn input_blocks(
    blocks: Seq<ContentBlock>,
    text: Seq<char>,
    images: Seq<ImageContent>,
) -> bool {
    let n = text_blocks(text);
    &&& blocks.len() == n + images.len()
    &&& n == 1 ==> blocks[0] is Text && blocks[0]->Text_0.text@ == text
    &&& blocks.skip(n) == images.map_values(|image: ImageContent| ContentBlock::Image(image))
}

/// The blocks of an input.
pub fn build_content_blocks_for_input(text: &str, images: &[ImageContent]) -> (r: Vec<ContentBlock>)
    ensures
        input_blocks(r@, text@, images@),
{
    let mut blocks: Vec<ContentBlock> = Vec::new();
    if !trim(text).is_empty() {
        blocks.push(ContentBlock::Text(TextContent::new(text)));
    }
    let ghost n = text_blocks(text@);
    let mut i: usize = 0;
    while i < images.len()
        invariant
            i <= images@.len(),
            0 <= n <= 1,
            blocks@.len() == n + i,
            n == 1 ==> blocks@[0] is Text && blocks@[0]->Text_0.text@ == text@,
            forall|k: int| n <= k < n + i ==> blocks@[k] == ContentBlock::Image(images@[k - n]),
        decreases images@.len() - i,
    {
        blocks.push(ContentBlock::Image(images[i].clone()));
        i = i + 1;
    }
    assert(blocks@.skip(n) =~= images@.map_values(
        |image: ImageContent| ContentBlock::Image(image),
    ));
    blocks
}

/// Splitting the blocks of an input gives its text and its images back. A blank text is lost.
pub proof fn law_input_roundtrip(
    blocks: Seq<ContentBlock>,
    text: Seq<char>,
    images: Seq<ImageContent>,
)
    requires
        input_blocks(blocks, text, images),
    ensures
        text_lines(blocks) == (if blank(text) {
            Seq::empty()
        } else {
            text
        }),
        images_of(blocks) == images,
    decreases images.len(),
{
    let n = text_blocks(text);
    if images.len() > 0 {
        let init = blocks.drop_last();
        let fewer = images.drop_last();
        assert(blocks.last() == blocks.skip(n)[images.len() - 1]);
        assert(init.skip(n) =~= blocks.skip(n).drop_last());
        assert(init.skip(n) =~= fewer.map_values(|image: ImageContent| ContentBlock::Image(image)));
        law_input_roundtrip(init, text, fewer);
        assert(images_of(blocks) =~= images);
    } else if !blank(text) {
        reveal_with_fuel(text_lines, 2);
        reveal_with_fuel(images_of, 2);
        assert(blocks.last() == blocks[0]);
        assert(text.len() > 0);
        assert(text_lines(blocks) =~= text);
        assert(images_of(blocks) =~= images);
    } else {
        assert(images_of(blocks) =~= images);
    }
}

/// The line breaks of two texts add up, and each line feed is one.
pub proof fn law_line_breaks_add_up(a: Seq<char>, b: Seq<char>, c: char)
    ensures
        line_breaks(a + b) == line_breaks(a) + line_breaks(b),
        line_breaks(Seq::empty()) == 0,
        line_breaks(seq!['\n']) == 1,
        c != '\n' ==> line_breaks(seq![c]) == 0,
    decreases b.len(),
{
    reveal_with_fuel(line_breaks, 2);
    if b.len() == 0 {
        assert(a + b =~= a);
    } else {
        law_line_breaks_add_up(a, b.drop_last(), c);
        assert((a + b).drop_last() =~= a + b.drop_last());
    }
    assert(seq!['\n'].drop_last() =~= Seq::<char>::empty());
    assert(seq![c].drop_last() =~= Seq::<char>::empty());
}

/// One more block behind others: a text goes below the texts, a thought below the thoughts, an
/// image behind the images, a call nowhere, and each leaves the rest as it was. An empty text or
/// thought adds no line.
pub proof fn law_one_more_block(blocks: Seq<ContentBlock>, block: ContentBlock)
    ensures
        ({
            let more = blocks.push(block);
            let below = |lines: Seq<char>, line: Seq<char>|
                if line.len() == 0 {
                    lines
                } else if lines.len() == 0 {
                    line
                } else {
                    lines + seq!['\n'] + line
                };
            &&& block matches ContentBlock::Text(content) ==> text_lines(more) == below(
                text_lines(blocks),
                content.text@,
            )
            &&& !(block is Text) ==> text_lines(more) == text_lines(blocks)
            &&& block matches ContentBlock::Thinking(content) ==> thinking_lines(more) == below(
                thinking_lines(blocks),
                content.thinking@,
            )
            &&& !(block is Thinking) ==> thinking_lines(more) == thinking_lines(blocks)
            &&& block matches ContentBlock::Image(image) ==> images_of(more) == images_of(
                blocks,
            ).push(image)
            &&& !(block is Image) ==> images_of(more) == images_of(blocks)
        }),
        text_lines(Seq::empty()) == Seq::<char>::empty(),
        thinking_lines(Seq::empty()) == Seq::<char>::empty(),
        images_of(Seq::empty()) == Seq::<ImageContent>::empty(),
{
    assert(blocks.push(block).drop_last() =~= blocks);
    match block {
        ContentBlock::Text(content) => {
            assert(text_lines(blocks).push('\n') + content.text@ =~= text_lines(blocks)
                + seq!['\n'] + content.text@);
        },
        ContentBlock::Thinking(content) => {
            assert(thinking_lines(blocks).push('\n') + content.thinking@ =~= thinking_lines(blocks)
                + seq!['\n'] + content.thinking@);
        },
        _ => {},
    }
}

/// The blocks of an input are its text, where it has a character that is not white space, and then
/// its images, one by one.
pub proof fn law_blocks_of_an_input(
    blocks: Seq<ContentBlock>,
    text: Seq<char>,
    images: Seq<ImageContent>,
    i: int,
)
    requires
        input_blocks(blocks, text, images),
    ensures
        (exists|k: int| 0 <= k < text.len() && !white_space(text[k])) ==> {
            &&& blocks.len() == 1 + images.len()
            &&& blocks[0] matches ContentBlock::Text(content) && content.text@ == text
            &&& 0 <= i < images.len() ==> blocks[1 + i] == ContentBlock::Image(images[i])
        },
        (forall|k: int| 0 <= k < text.len() ==> white_space(text[k])) ==> {
            &&& blocks.len() == images.len()
            &&& 0 <= i < images.len() ==> blocks[i] == ContentBlock::Image(images[i])
        },
{
    law_blank_is_all_white_space(text);
    let n = text_blocks(text);
    if 0 <= i < images.len() {
        assert(blocks.skip(n)[i] == blocks[n + i]);
    }
}

} // verus!
