//! Message text, built with serenity's `MessageBuilder`.

use serenity::utils::MessageBuilder;
use vstd::prelude::*;

verus! {

/// serenity's `MessageBuilder`: a message under construction.
#[verifier::external_type_specification]
#[verifier::external_body]
pub struct ExMessageBuilder(MessageBuilder);

/// The text that a builder has collected so far.
pub uninterp spec fn built_text(builder: MessageBuilder) -> Seq<char>;

/// The line that opens and closes a code block: three backticks.
pub open spec fn fence() -> Seq<char> {
    seq!['`', '`', '`']
}

/// `content` as a code block without a language: a fence, a line break, the
/// content, a line break, and a fence.
pub open spec fn code_block(content: Seq<char>) -> Seq<char> {
    fence() + seq!['\n'] + content + seq!['\n'] + fence()
}

/// `MessageBuilder::new`: the builder starts with no text.
#[verifier::external_body]
fn new_builder() -> (builder: MessageBuilder)
    ensures
        built_text(builder) == Seq::<char>::empty(),
{
    MessageBuilder::new()
}

/// `MessageBuilder::push` with a string: the string is appended as it is, with
/// nothing escaped and nothing added.
#[verifier::external_body]
fn push_text(builder: &mut MessageBuilder, content: &str)
    ensures
        built_text(*final(builder)) == built_text(*old(builder)) + content@,
{
    builder.push(content);
}

/// `MessageBuilder::push_codeblock` with a string and no language: appends
/// three backticks, a line break, the string as it is, a line break and three
/// backticks.
#[verifier::external_body]
fn push_code_block(builder: &mut MessageBuilder, content: &str)
    ensures
        built_text(*final(builder)) == built_text(*old(builder)) + code_block(content@),
{
    builder.push_codeblock(content, None);
}

/// `MessageBuilder::build`: hands out a copy of the text collected so far and
/// leaves the builder as it is.
#[verifier::external_body]
fn build(builder: &mut MessageBuilder) -> (text: String)
    ensures
        text@ == built_text(*old(builder)),
        built_text(*final(builder)) == built_text(*old(builder)),
{
    builder.build()
}

/// A message that holds `content` and nothing else.
pub fn plain_message(content: &str) -> (text: String)
    ensures
        text@ == content@,
{
    let mut builder = new_builder();
    push_text(&mut builder, content);
    build(&mut builder)
}

/// A message that holds `content` as a code block.
pub fn code_block_message(content: &str) -> (text: String)
    ensures
        text@ == code_block(content@),
{
    let mut builder = new_builder();
    push_code_block(&mut builder, content);
    build(&mut builder)
}

} // verus!
