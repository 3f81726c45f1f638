//! Chat prompts: rendering a conversation into the model's chat template and
//! expanding the image placeholder into the grid of vision tokens.

use vstd::prelude::*;

use crate::model::pipeline::count_token;
use crate::processor::grid::VisionGrid;
use crate::tokenizer::{is_missing_token, Tokenizer};
use crate::util::text::{decimal, with_number};
use crate::Error;

verus! {

/// Role assigned to a chat message.
#[derive(Debug, Clone, Copy, PartialEq, Eq)]
pub enum MessageRole {
    /// System instruction message.
    System,
    /// User request message.
    User,
    /// Assistant response message.
    Assistant,
}

/// The role string used by the chat template.
pub open spec fn role_text(role: MessageRole) -> Seq<char> {
    match role {
        MessageRole::System => "system"@,
        MessageRole::User => "user"@,
        MessageRole::Assistant => "assistant"@,
    }
}

impl MessageRole {
    /// Returns the role string used by the chat template.
    pub fn as_str(self) -> (s: &'static str)
        ensures
            s@ == role_text(self),
    {
        match self {
            MessageRole::System => "system",
            MessageRole::User => "user",
            MessageRole::Assistant => "assistant",
        }
    }
}

/// A content item within a chat message.
#[derive(Debug, Clone, PartialEq, Eq)]
pub enum MessageContent {
    /// Plain text.
    Text(String),
    /// Image placeholder.
    Image,
}

/// A multimodal chat message.
#[derive(Debug, Clone, PartialEq, Eq)]
pub struct Message {
    /// Role assigned to this message.
    pub role: MessageRole,
    /// Ordered content items in this message.
    pub content: Vec<MessageContent>,
}

impl Message {
    /// Creates a message from a role and content items.
    pub fn new(role: MessageRole, content: Vec<MessageContent>) -> (m: Self)
        ensures
            m.role == role,
            m.content@ == content@,
    {
        Message { role, content }
    }

    /// The single-image user message used for OCR.
    pub fn user_image() -> (m: Self)
        ensures
            m.role is User,
            m.content@ == seq![MessageContent::Image],
    {
        let mut content: Vec<MessageContent> = Vec::new();
        content.push(MessageContent::Image);
        Message { role: MessageRole::User, content }
    }
}

/// Marker opening a chat turn.
pub open spec fn turn_start() -> Seq<char> {
    "<|im_start|>"@
}

/// Line break.
pub open spec fn newline() -> Seq<char> {
    "\n"@
}

/// Rendering of one content item: text followed by a line break, or the image
/// token.
pub open spec fn content_text(content: MessageContent, image_token: Seq<char>) -> Seq<char> {
    match content {
        MessageContent::Text(text) => text@ + newline(),
        MessageContent::Image => image_token,
    }
}

/// Rendering of a sequence of content items, in order.
pub open spec fn contents_text(contents: Seq<MessageContent>, image_token: Seq<char>) -> Seq<char>
    decreases contents.len(),
{
    if contents.len() == 0 {
        Seq::empty()
    } else {
        contents_text(contents.drop_last(), image_token) + content_text(contents.last(), image_token)
    }
}

/// Rendering of one message: turn marker, role, line break, contents, then the
/// end-of-sequence token and a line break.
pub open spec fn message_text(message: Message, eos: Seq<char>, image_token: Seq<char>) -> Seq<char> {
    turn_start() + role_text(message.role) + newline() + contents_text(message.content@, image_token) + eos + newline()
}

/// Rendering of a sequence of messages, in order.
pub open spec fn messages_text(messages: Seq<Message>, eos: Seq<char>, image_token: Seq<char>) -> Seq<char>
    decreases messages.len(),
{
    if messages.len() == 0 {
        Seq::empty()
    } else {
        messages_text(messages.drop_last(), eos, image_token) + message_text(messages.last(), eos, image_token)
    }
}

/// The default system turn, added when the conversation does not open with a
/// system message.
pub open spec fn system_preamble(messages: Seq<Message>, eos: Seq<char>) -> Seq<char> {
    if messages.len() > 0 && messages[0].role is System {
        Seq::empty()
    } else {
        turn_start() + role_text(MessageRole::System) + eos + newline()
    }
}

/// The rendered chat prompt: the system preamble, every message, and the
/// opening of the assistant turn.
pub open spec fn chat_prompt(messages: Seq<Message>, eos: Seq<char>, image_token: Seq<char>) -> Seq<char> {
    system_preamble(messages, eos) + messages_text(messages, eos, image_token) + turn_start() + role_text(
        MessageRole::Assistant,
    ) + newline()
}

/// A conversation of one user turn renders as a system turn, the user turn and
/// the opening of the assistant turn, each closed turn ending with the
/// end-of-sequence token `eos` and a line break.
pub proof fn lemma_single_user_turn_prompt(message: Message, eos: Seq<char>, image_token: Seq<char>)
    requires
        message.role is User,
    ensures
        chat_prompt(seq![message], eos, image_token) == "<|im_start|>system"@ + eos + "\n<|im_start|>user\n"@
            + contents_text(message.content@, image_token) + eos + "\n<|im_start|>assistant\n"@,
{
    reveal_strlit("<|im_start|>");
    reveal_strlit("system");
    reveal_strlit("user");
    reveal_strlit("assistant");
    reveal_strlit("\n");
    reveal_strlit("<|im_start|>system");
    reveal_strlit("\n<|im_start|>user\n");
    reveal_strlit("\n<|im_start|>assistant\n");
    let ms = seq![message];
    assert(ms.drop_last() =~= Seq::<Message>::empty());
    assert(ms.last() == message);
    assert(messages_text(Seq::<Message>::empty(), eos, image_token) =~= Seq::<char>::empty());
    assert(messages_text(ms, eos, image_token) =~= Seq::<char>::empty() + message_text(message, eos, image_token));
    assert(messages_text(ms, eos, image_token) =~= message_text(message, eos, image_token));
    assert(chat_prompt(ms, eos, image_token) =~= "<|im_start|>system"@ + eos + "\n<|im_start|>user\n"@
        + contents_text(message.content@, image_token) + eos + "\n<|im_start|>assistant\n"@);
}

/// The OCR conversation, one user turn holding only the image, renders as
/// `<|im_start|>system{eos}\n<|im_start|>user\n{image}{eos}\n<|im_start|>assistant\n`.
pub proof fn lemma_ocr_prompt(message: Message, eos: Seq<char>, image_token: Seq<char>)
    requires
        message.role is User,
        message.content@ == seq![MessageContent::Image],
    ensures
        chat_prompt(seq![message], eos, image_token) == "<|im_start|>system"@ + eos + "\n<|im_start|>user\n"@
            + image_token + eos + "\n<|im_start|>assistant\n"@,
{
    lemma_single_user_turn_prompt(message, eos, image_token);
    let c = message.content@;
    assert(c.drop_last() =~= Seq::<MessageContent>::empty());
    assert(c.last() == MessageContent::Image);
    assert(contents_text(Seq::<MessageContent>::empty(), image_token) =~= Seq::<char>::empty());
    assert(contents_text(c, image_token) =~= Seq::<char>::empty() + image_token);
    assert(contents_text(c, image_token) =~= image_token);
}

/// Appending a message to a conversation inserts its turn, closed by the
/// end-of-sequence token `eos` and a line break, just before the opening of
/// the assistant turn; what comes before is unchanged.
pub proof fn lemma_appended_turn_prompt(
    messages: Seq<Message>,
    message: Message,
    eos: Seq<char>,
    image_token: Seq<char>,
)
    requires
        messages.len() > 0,
    ensures
        chat_prompt(messages, eos, image_token) == system_preamble(messages, eos) + messages_text(messages, eos,
            image_token) + "<|im_start|>assistant\n"@,
        chat_prompt(messages.push(message), eos, image_token) == system_preamble(messages, eos) + messages_text(
            messages,
            eos,
            image_token,
        ) + "<|im_start|>"@ + role_text(message.role) + "\n"@ + contents_text(message.content@, image_token) + eos
            + "\n"@ + "<|im_start|>assistant\n"@,
{
    reveal_strlit("<|im_start|>");
    reveal_strlit("assistant");
    reveal_strlit("\n");
    reveal_strlit("<|im_start|>assistant\n");
    let longer = messages.push(message);
    assert(longer.drop_last() =~= messages);
    assert(longer[0] == messages[0]);
    assert(system_preamble(longer, eos) == system_preamble(messages, eos));
    assert(chat_prompt(messages, eos, image_token) =~= system_preamble(messages, eos) + messages_text(messages, eos,
        image_token) + "<|im_start|>assistant\n"@);
    assert(chat_prompt(longer, eos, image_token) =~= system_preamble(messages, eos) + messages_text(messages, eos,
        image_token) + "<|im_start|>"@ + role_text(message.role) + "\n"@ + contents_text(message.content@,
        image_token) + eos + "\n"@ + "<|im_start|>assistant\n"@);
}

/// Renders a conversation into the chat template.
pub fn render_chat_template(messages: &[Message], eos: &str, image_token: &str) -> (prompt: String)
    ensures
        prompt@ == chat_prompt(messages@, eos@, image_token@),
{
    let mut prompt = String::new();
    let opens_with_system = messages.len() > 0 && matches!(messages[0].role, MessageRole::System);
    if !opens_with_system {
        prompt.append("<|im_start|>");
        prompt.append(MessageRole::System.as_str());
        prompt.append(eos);
        prompt.append("\n");
    }
    let ghost preamble = prompt@;
    assert(preamble == system_preamble(messages@, eos@));
    let mut i: usize = 0;
    while i < messages.len()
        invariant
            i <= messages@.len(),
            prompt@ == preamble + messages_text(messages@.take(i as int), eos@, image_token@),
        decreases messages@.len() - i,
    {
        let message = &messages[i];
        let ghost before = prompt@;
        prompt.append("<|im_start|>");
        prompt.append(message.role.as_str());
        prompt.append("\n");
        let ghost head = prompt@;
        let mut j: usize = 0;
        while j < message.content.len()
            invariant
                j <= message.content@.len(),
                prompt@ == head + contents_text(message.content@.take(j as int), image_token@),
            decreases message.content@.len() - j,
        {
            match &message.content[j] {
                MessageContent::Text(text) => {
                    prompt.append(text.as_str());
                    prompt.append("\n");
                },
                MessageContent::Image => {
                    prompt.append(image_token);
                },
            }
            proof {
                let t = message.content@.take(j + 1);
                assert(t.drop_last() =~= message.content@.take(j as int));
                assert(t.last() == message.content@[j as int]);
            }
            j += 1;
        }
        proof {
            assert(message.content@.take(message.content@.len() as int) =~= message.content@);
        }
        prompt.append(eos);
        prompt.append("\n");
        proof {
            let t = messages@.take(i + 1);
            assert(t.drop_last() =~= messages@.take(i as int));
            assert(t.last() == messages@[i as int]);
            assert(prompt@ =~= before + message_text(messages@[i as int], eos@, image_token@));
        }
        i += 1;
    }
    proof {
        assert(messages@.take(messages@.len() as int) =~= messages@);
    }
    prompt.append("<|im_start|>");
    prompt.append(MessageRole::Assistant.as_str());
    prompt.append("\n");
    prompt
}

/// `n` copies of `id`.
pub open spec fn repeat_token(id: i64, n: nat) -> Seq<i64> {
    Seq::new(n, |_i: int| id)
}

/// The first `rows` rows of a vision grid: each row is `width` image tokens,
/// and consecutive rows are separated by the break token.
pub open spec fn grid_rows(image_id: i64, break_id: i64, width: nat, rows: nat) -> Seq<i64>
    decreases rows,
{
    if rows == 0 {
        Seq::empty()
    } else {
        grid_rows(image_id, break_id, width, (rows - 1) as nat) + (if rows > 1 {
            seq![break_id]
        } else {
            Seq::empty()
        }) + repeat_token(image_id, width)
    }
}

/// The token sequence standing for a vision feature grid: its rows, then the
/// end token.
pub open spec fn grid_tokens(image_id: i64, break_id: i64, end_id: i64, grid: VisionGrid) -> Seq<i64> {
    grid_rows(image_id, break_id, grid.width as nat, grid.height as nat) + seq![end_id]
}

/// Builds the token sequence standing for a vision feature grid.
pub fn image_grid_token_ids(image_id: i64, break_id: i64, end_id: i64, grid: VisionGrid) -> (ids: Vec<i64>)
    ensures
        ids@ == grid_tokens(image_id, break_id, end_id, grid),
{
    let mut ids: Vec<i64> = Vec::new();
    let mut row: usize = 0;
    while row < grid.height
        invariant
            row <= grid.height,
            ids@ == grid_rows(image_id, break_id, grid.width as nat, row as nat),
        decreases grid.height - row,
    {
        let ghost before = ids@;
        if row > 0 {
            ids.push(break_id);
        }
        let ghost start = ids@;
        let mut k: usize = 0;
        while k < grid.width
            invariant
                k <= grid.width,
                ids@ == start + repeat_token(image_id, k as nat),
            decreases grid.width - k,
        {
            ids.push(image_id);
            k += 1;
            assert(ids@ =~= start + repeat_token(image_id, k as nat));
        }
        proof {
            assert(start =~= before + (if row + 1 > 1 { seq![break_id] } else { Seq::<i64>::empty() }));
        }
        row += 1;
    }
    ids.push(end_id);
    ids
}

/// The prompt with every image placeholder replaced by the grid tokens.
pub open spec fn expanded_ids(ids: Seq<i64>, image_id: i64, grid: Seq<i64>) -> Seq<i64>
    decreases ids.len(),
{
    if ids.len() == 0 {
        Seq::empty()
    } else {
        expanded_ids(ids.drop_last(), image_id, grid) + (if ids.last() == image_id {
            grid
        } else {
            seq![ids.last()]
        })
    }
}

proof fn lemma_count_take_next(ids: Seq<i64>, id: i64, s: int)
    requires
        0 <= s < ids.len(),
    ensures
        count_token(ids.take(s + 1), id) == count_token(ids.take(s), id) + (if ids[s] == id { 1nat } else { 0nat }),
{
    assert(ids.take(s + 1).drop_last() =~= ids.take(s));
}

/// Replaces the single image placeholder of a prompt with the grid tokens.
/// A prompt with no placeholder, or with more than one, is rejected.
pub fn expand_placeholder_ids(input_ids: &[i64], image_token_id: i64, grid_ids: &[i64]) -> (r: Result<
    Vec<i64>,
    Error,
>)
    ensures
        count_token(input_ids@, image_token_id) == 1 ==> (r matches Ok(v) && v@ == expanded_ids(
            input_ids@,
            image_token_id,
            grid_ids@,
        )),
        count_token(input_ids@, image_token_id) != 1 ==> (r matches Err(Error::ImageProcessing { reason })
            && reason@ == "expected exactly one image placeholder, found "@ + decimal(
            count_token(input_ids@, image_token_id),
        )),
{
    let mut count: usize = 0;
    let mut s: usize = 0;
    while s < input_ids.len()
        invariant
            s <= input_ids@.len(),
            count == count_token(input_ids@.take(s as int), image_token_id),
            count <= s,
        decreases input_ids@.len() - s,
    {
        proof {
            lemma_count_take_next(input_ids@, image_token_id, s as int);
        }
        if input_ids[s] == image_token_id {
            count += 1;
        }
        s += 1;
    }
    proof {
        assert(input_ids@.take(input_ids@.len() as int) =~= input_ids@);
    }
    if count != 1 {
        proof {
            reveal_strlit("");
        }
        let reason = with_number("expected exactly one image placeholder, found ", count as u64, "");
        proof {
            assert(reason@ =~= "expected exactly one image placeholder, found "@ + decimal(count as nat));
        }
        return Err(Error::ImageProcessing { reason });
    }
    let mut expanded: Vec<i64> = Vec::new();
    let mut i: usize = 0;
    while i < input_ids.len()
        invariant
            i <= input_ids@.len(),
            expanded@ == expanded_ids(input_ids@.take(i as int), image_token_id, grid_ids@),
        decreases input_ids@.len() - i,
    {
        let id = input_ids[i];
        let ghost before = expanded@;
        if id == image_token_id {
            let mut k: usize = 0;
            while k < grid_ids.len()
                invariant
                    k <= grid_ids@.len(),
                    expanded@ == before + grid_ids@.take(k as int),
                decreases grid_ids@.len() - k,
            {
                expanded.push(grid_ids[k]);
                k += 1;
                assert(expanded@ =~= before + grid_ids@.take(k as int));
            }
            assert(grid_ids@.take(grid_ids@.len() as int) =~= grid_ids@);
        } else {
            expanded.push(id);
        }
        proof {
            let t = input_ids@.take(i + 1);
            assert(t.drop_last() =~= input_ids@.take(i as int));
            assert(t.last() == input_ids@[i as int]);
        }
        i += 1;
    }
    proof {
        assert(input_ids@.take(input_ids@.len() as int) =~= input_ids@);
    }
    Ok(expanded)
}

proof fn lemma_count_concat(a: Seq<i64>, b: Seq<i64>, id: i64)
    ensures
        count_token(a + b, id) == count_token(a, id) + count_token(b, id),
    decreases b.len(),
{
    if b.len() == 0 {
        assert(a + b =~= a);
    } else {
        assert((a + b).drop_last() =~= a + b.drop_last());
        lemma_count_concat(a, b.drop_last(), id);
    }
}

proof fn lemma_count_repeat(id: i64, n: nat)
    ensures
        count_token(repeat_token(id, n), id) == n,
    decreases n,
{
    if n > 0 {
        assert(repeat_token(id, n).drop_last() =~= repeat_token(id, (n - 1) as nat));
        lemma_count_repeat(id, (n - 1) as nat);
    } else {
        assert(repeat_token(id, n) =~= Seq::<i64>::empty());
    }
}

proof fn lemma_count_grid_rows(image_id: i64, break_id: i64, width: nat, rows: nat)
    requires
        break_id != image_id,
    ensures
        count_token(grid_rows(image_id, break_id, width, rows), image_id) == width * rows,
    decreases rows,
{
    if rows > 0 {
        let prev = grid_rows(image_id, break_id, width, (rows - 1) as nat);
        let sep: Seq<i64> = if rows > 1 {
            seq![break_id]
        } else {
            Seq::empty()
        };
        lemma_count_grid_rows(image_id, break_id, width, (rows - 1) as nat);
        lemma_count_concat(prev, sep, image_id);
        lemma_count_concat(prev + sep, repeat_token(image_id, width), image_id);
        lemma_count_repeat(image_id, width);
        if rows > 1 {
            assert(seq![break_id].drop_last() =~= Seq::<i64>::empty());
            assert(count_token(Seq::<i64>::empty(), image_id) == 0);
        }
        assert(count_token(sep, image_id) == 0);
        assert(grid_rows(image_id, break_id, width, rows) == prev + sep + repeat_token(image_id, width));
        assert(width * (rows - 1) + width == width * rows) by (nonlinear_arith);
        assert(count_token(prev + sep + repeat_token(image_id, width), image_id) == width * (rows - 1) + width);
    } else {
        assert(grid_rows(image_id, break_id, width, rows) =~= Seq::<i64>::empty());
        assert(width * rows == 0) by (nonlinear_arith)
            requires
                rows == 0,
        ;
    }
}

proof fn lemma_count_expanded(ids: Seq<i64>, image_id: i64, grid: Seq<i64>)
    ensures
        count_token(expanded_ids(ids, image_id, grid), image_id) == count_token(ids, image_id) * count_token(
            grid,
            image_id,
        ),
    decreases ids.len(),
{
    if ids.len() > 0 {
        lemma_count_expanded(ids.drop_last(), image_id, grid);
        let tail: Seq<i64> = if ids.last() == image_id {
            grid
        } else {
            seq![ids.last()]
        };
        lemma_count_concat(expanded_ids(ids.drop_last(), image_id, grid), tail, image_id);
        if ids.last() != image_id {
            assert(seq![ids.last()].drop_last() =~= Seq::<i64>::empty());
            assert(count_token(Seq::<i64>::empty(), image_id) == 0);
            assert(count_token(tail, image_id) == 0);
        }
        assert(expanded_ids(ids, image_id, grid) == expanded_ids(ids.drop_last(), image_id, grid) + tail);
        let c = count_token(ids.drop_last(), image_id);
        let g = count_token(grid, image_id);
        assert(c * g + g == (c + 1) * g) by (nonlinear_arith);
        if ids.last() == image_id {
            assert(count_token(ids, image_id) == c + 1);
            assert(count_token(expanded_ids(ids, image_id, grid), image_id) == c * g + g);
        } else {
            assert(count_token(ids, image_id) == c);
            assert(count_token(expanded_ids(ids, image_id, grid), image_id) == c * g);
        }
    } else {
        assert(expanded_ids(ids, image_id, grid) =~= Seq::<i64>::empty());
        assert(count_token(Seq::<i64>::empty(), image_id) == 0);
        assert(count_token(ids, image_id) == 0);
        let g = count_token(grid, image_id);
        assert(0 * g == 0) by (nonlinear_arith);
    }
}

/// After expansion, a prompt with a single placeholder holds exactly one image
/// token per vision feature (when the row-break and end tokens differ from the
/// image token): the count the feature merge requires.
pub proof fn lemma_expanded_prompt_has_one_image_token_per_feature(
    ids: Seq<i64>,
    image_id: i64,
    break_id: i64,
    end_id: i64,
    grid: VisionGrid,
)
    requires
        count_token(ids, image_id) == 1,
        break_id != image_id,
        end_id != image_id,
    ensures
        count_token(expanded_ids(ids, image_id, grid_tokens(image_id, break_id, end_id, grid)), image_id)
            == grid.width * grid.height,
{
    let rows = grid_rows(image_id, break_id, grid.width as nat, grid.height as nat);
    lemma_count_grid_rows(image_id, break_id, grid.width as nat, grid.height as nat);
    lemma_count_concat(rows, seq![end_id], image_id);
    assert(seq![end_id].drop_last() =~= Seq::<i64>::empty());
    assert(count_token(Seq::<i64>::empty(), image_id) == 0);
    assert(count_token(seq![end_id], image_id) == 0);
    lemma_count_expanded(ids, image_id, grid_tokens(image_id, break_id, end_id, grid));
}

/// The ID of a token known to a token-to-ID table, as a model token ID.
pub open spec fn known_id(vocabulary: Map<Seq<char>, u32>, token: Seq<char>) -> i64 {
    vocabulary[token] as i64
}

/// Whether a prompt can be expanded: the image token is known and occurs once,
/// and the row-break and end tokens are known.
pub open spec fn placeholder_expansion_ok(
    vocabulary: Map<Seq<char>, u32>,
    input_ids: Seq<i64>,
    image_token: Seq<char>,
    break_token: Seq<char>,
    end_token: Seq<char>,
) -> bool {
    &&& vocabulary.contains_key(image_token)
    &&& count_token(input_ids, known_id(vocabulary, image_token)) == 1
    &&& vocabulary.contains_key(break_token)
    &&& vocabulary.contains_key(end_token)
}

/// Whether `e` reports the first reason, in the order the checks run, that a
/// prompt cannot be expanded.
pub open spec fn reports_expansion_failure(
    e: Error,
    vocabulary: Map<Seq<char>, u32>,
    input_ids: Seq<i64>,
    image_token: Seq<char>,
    break_token: Seq<char>,
    end_token: Seq<char>,
) -> bool {
    if !vocabulary.contains_key(image_token) {
        is_missing_token(e, "token"@, image_token)
    } else if count_token(input_ids, known_id(vocabulary, image_token)) != 1 {
        e matches Error::ImageProcessing { reason } && reason@ == "expected exactly one image placeholder, found "@
            + decimal(count_token(input_ids, known_id(vocabulary, image_token))) + ""@
    } else if !vocabulary.contains_key(break_token) {
        is_missing_token(e, "token"@, break_token)
    } else {
        is_missing_token(e, "token"@, end_token)
    }
}

/// Multimodal text processor: owns the tokenizer and the image tokens of the
/// chat template.
#[derive(Debug, Clone)]
pub struct TextProcessor {
    tokenizer: Tokenizer,
    image_token: String,
    image_break_token: String,
    image_end_token: String,
}

impl TextProcessor {
    /// Creates a text processor.
    pub fn new(tokenizer: Tokenizer, image_token: &str, image_break_token: &str, image_end_token: &str) -> (p: Self)
        ensures
            p.spec_tokenizer() == tokenizer,
            p.spec_image_token() == image_token@,
            p.spec_image_break_token() == image_break_token@,
            p.spec_image_end_token() == image_end_token@,
    {
        TextProcessor {
            tokenizer,
            image_token: image_token.to_owned(),
            image_break_token: image_break_token.to_owned(),
            image_end_token: image_end_token.to_owned(),
        }
    }

    /// The tokenizer of the processor.
    pub closed spec fn spec_tokenizer(&self) -> Tokenizer {
        self.tokenizer
    }

    /// The image placeholder token.
    pub closed spec fn spec_image_token(&self) -> Seq<char> {
        self.image_token@
    }

    /// The token separating rows of image tokens.
    pub closed spec fn spec_image_break_token(&self) -> Seq<char> {
        self.image_break_token@
    }

    /// The token closing the image tokens.
    pub closed spec fn spec_image_end_token(&self) -> Seq<char> {
        self.image_end_token@
    }

    /// Returns the tokenizer used by this text processor.
    pub fn tokenizer(&self) -> (t: &Tokenizer)
        ensures
            *t == self.spec_tokenizer(),
    {
        &self.tokenizer
    }

    /// Renders the conversation into the chat template and tokenizes it. The
    /// image placeholder is left unexpanded.
    pub fn process(&self, messages: &[Message]) -> (r: Result<Vec<i64>, Error>)
        ensures
            r matches Ok(ids) ==> forall|i: int| 0 <= i < ids@.len() ==> 0 <= #[trigger] ids@[i] <= u32::MAX,
            r matches Ok(ids) ==> exists|prompt: &str| prompt@ == self.spec_prompt(messages@) && self.spec_tokenizer().encodes(
                prompt,
                ids@,
            ),
            r matches Err(e) ==> e is TokenizerEncoding,
            r matches Err(e) ==> e matches Error::TokenizerEncoding { reason } && exists|prompt: &str| prompt@
                == self.spec_prompt(messages@) && self.spec_tokenizer().runtime_encoding_fails(prompt, reason@),
    {
        let prompt = self.render_template(messages);
        let text = prompt.as_str();
        let r = self.tokenizer.encode(text);
        assert(text@ == self.spec_prompt(messages@));
        r
    }

    /// The OCR conversation that `process` encodes closes its system and user
    /// turns with the tokenizer's end-of-sequence token:
    /// `<|im_start|>system{eos}\n<|im_start|>user\n{image}{eos}\n<|im_start|>assistant\n`.
    pub proof fn lemma_ocr_process_prompt(&self, message: Message)
        requires
            message.role is User,
            message.content@ == seq![MessageContent::Image],
        ensures
            self.spec_prompt(seq![message]) == "<|im_start|>system"@ + self.spec_tokenizer().spec_config().eos_token@
                + "\n<|im_start|>user\n"@ + self.spec_image_token() + self.spec_tokenizer().spec_config().eos_token@
                + "\n<|im_start|>assistant\n"@,
    {
        lemma_ocr_prompt(message, self.spec_tokenizer().spec_config().eos_token@, self.spec_image_token());
    }

    /// The prompt `process` encodes: the conversation in the chat template,
    /// every turn closed by the tokenizer's end-of-sequence token.
    pub open spec fn spec_prompt(&self, messages: Seq<Message>) -> Seq<char> {
        chat_prompt(messages, self.spec_tokenizer().spec_config().eos_token@, self.spec_image_token())
    }

    /// The chat prompt for `messages`, with the tokenizer's end-of-sequence
    /// token.
    fn render_template(&self, messages: &[Message]) -> (prompt: String)
        ensures
            prompt@ == chat_prompt(messages@, self.tokenizer.spec_config().eos_token@, self.spec_image_token()),
    {
        let eos = self.tokenizer.config().eos_token.as_str();
        render_chat_template(messages, eos, self.image_token.as_str())
    }

    /// Expands the single image placeholder of a prompt into the vision token
    /// grid, looking the image, break and end tokens up in the vocabulary.
    pub fn expand_image_placeholders(&self, input_ids: &[i64], vision_grid: VisionGrid) -> (r: Result<
        Vec<i64>,
        Error,
    >)
        ensures
            r is Ok <==> placeholder_expansion_ok(
                self.spec_tokenizer().spec_vocabulary(),
                input_ids@,
                self.spec_image_token(),
                self.spec_image_break_token(),
                self.spec_image_end_token(),
            ),
            r matches Ok(v) ==> {
                let vocabulary = self.spec_tokenizer().spec_vocabulary();
                let image_id = known_id(vocabulary, self.spec_image_token());
                let break_id = known_id(vocabulary, self.spec_image_break_token());
                let end_id = known_id(vocabulary, self.spec_image_end_token());
                v@ == expanded_ids(input_ids@, image_id, grid_tokens(image_id, break_id, end_id, vision_grid))
            },
            r matches Err(e) ==> reports_expansion_failure(
                e,
                self.spec_tokenizer().spec_vocabulary(),
                input_ids@,
                self.spec_image_token(),
                self.spec_image_break_token(),
                self.spec_image_end_token(),
            ),
    {
        let image_token_id = match self.tokenizer.token_to_id(self.image_token.as_str()) {
            Ok(id) => id,
            Err(e) => return Err(e),
        };
        let mut count: usize = 0;
        let mut s: usize = 0;
        while s < input_ids.len()
            invariant
                s <= input_ids@.len(),
                count == count_token(input_ids@.take(s as int), image_token_id),
                count <= s,
            decreases input_ids@.len() - s,
        {
            proof {
                lemma_count_take_next(input_ids@, image_token_id, s as int);
            }
            if input_ids[s] == image_token_id {
                count += 1;
            }
            s += 1;
        }
        proof {
            assert(input_ids@.take(input_ids@.len() as int) =~= input_ids@);
        }
        if count != 1 {
            return Err(Error::ImageProcessing {
                reason: with_number("expected exactly one image placeholder, found ", count as u64, ""),
            });
        }
        let (break_id, end_id) = match self.separator_token_ids() {
            Ok(ids) => ids,
            Err(e) => return Err(e),
        };
        let grid_ids = image_grid_token_ids(image_token_id, break_id, end_id, vision_grid);
        expand_placeholder_ids(input_ids, image_token_id, grid_ids.as_slice())
    }

    /// Looks up the IDs of the row-break and end tokens.
    fn separator_token_ids(&self) -> (r: Result<(i64, i64), Error>)
        ensures
            r is Ok <==> self.spec_tokenizer().spec_vocabulary().contains_key(self.spec_image_break_token())
                && self.spec_tokenizer().spec_vocabulary().contains_key(self.spec_image_end_token()),
            r matches Ok((b, e)) ==> b == known_id(self.spec_tokenizer().spec_vocabulary(), self.spec_image_break_token())
                && e == known_id(self.spec_tokenizer().spec_vocabulary(), self.spec_image_end_token()),
            r matches Err(e) ==> if !self.spec_tokenizer().spec_vocabulary().contains_key(self.spec_image_break_token()) {
                is_missing_token(e, "token"@, self.spec_image_break_token())
            } else {
                is_missing_token(e, "token"@, self.spec_image_end_token())
            },
    {
        let break_id = match self.tokenizer.token_to_id(self.image_break_token.as_str()) {
            Ok(id) => id,
            Err(e) => return Err(e),
        };
        let end_id = match self.tokenizer.token_to_id(self.image_end_token.as_str()) {
            Ok(id) => id,
            Err(e) => return Err(e),
        };
        Ok((break_id, end_id))
    }
}

} // verus!
