//! Text views and weighted embedding inputs handed to the embedding provider,
//! with their validation and the combined embedding text.
use vstd::prelude::*;

use crate::float_bits::{self, f32_bits_in_range, f32_bits_is_finite, F32_TENTH, F32_TWO};
use crate::text::{self, chars_of, is_blank, push_decimal, trim_end_bound};

verus! {

broadcast use vstd::seq_lib::group_seq_properties;

/// The most embedding inputs a set of views may carry.
pub const MAX_EMBEDDING_INPUTS: usize = 96;

/// The most characters the text of one embedding input may hold.
pub const MAX_EMBEDDING_INPUT_CHARS: usize = 700;

/// The most characters the combined embedding text may hold.
pub const MAX_COMBINED_EMBEDDING_CHARS: usize = 24_000;

/// A rejected semantic contract: a stable machine code and a readable message.
#[derive(Debug, Clone, PartialEq, Eq)]
pub struct SemanticContractError {
    pub code: &'static str,
    pub message: String,
}

/// What an error says: its code and its message.
pub open spec fn error_view(e: SemanticContractError) -> (Seq<char>, Seq<char>) {
    (e.code@, e.message@)
}

/// The outcome of a validation: `None` when it passed, else the error's view.
pub open spec fn contract_outcome(r: Result<(), SemanticContractError>) -> Option<(Seq<char>, Seq<char>)> {
    match r {
        Ok(_) => None,
        Err(e) => Some(error_view(e)),
    }
}

impl SemanticContractError {
    fn new(code: &'static str, message: String) -> (e: Self)
        ensures
            e.code == code,
            e.message == message,
    {
        Self { code, message }
    }

    /// The text `Display` shows for this error: `"{code}: {message}"`.
    pub fn to_display_string(&self) -> (s: String)
        ensures
            s@ == self.code@ + ": "@ + self.message@,
    {
        let mut s = String::from_str(self.code);
        s.append(": ");
        s.append(self.message.as_str());
        s
    }
}

/// The role of one embedding input within a set of text views.
#[derive(Debug, Clone, Copy, PartialEq, Eq, Hash, Structural)]
pub enum EmbeddingInputKind {
    Title,
    Heading,
    Summary,
    Sentence,
    Entity,
    Keyword,
    UrlSignal,
    Document,
    Query,
}

/// The snake_case name of a kind on the wire.
pub open spec fn wire_label(kind: EmbeddingInputKind) -> Seq<char> {
    match kind {
        EmbeddingInputKind::Title => "title"@,
        EmbeddingInputKind::Heading => "heading"@,
        EmbeddingInputKind::Summary => "summary"@,
        EmbeddingInputKind::Sentence => "sentence"@,
        EmbeddingInputKind::Entity => "entity"@,
        EmbeddingInputKind::Keyword => "keyword"@,
        EmbeddingInputKind::UrlSignal => "url_signal"@,
        EmbeddingInputKind::Document => "document"@,
        EmbeddingInputKind::Query => "query"@,
    }
}

impl EmbeddingInputKind {
    /// The snake_case name of this kind on the wire.
    pub fn wire_name(self) -> (name: &'static str)
        ensures
            name@ == wire_label(self),
    {
        match self {
            Self::Title => "title",
            Self::Heading => "heading",
            Self::Summary => "summary",
            Self::Sentence => "sentence",
            Self::Entity => "entity",
            Self::Keyword => "keyword",
            Self::UrlSignal => "url_signal",
            Self::Document => "document",
            Self::Query => "query",
        }
    }
}

/// Distinct kinds have distinct wire names, so a wire name identifies its kind.
pub proof fn lemma_wire_names_are_distinct(a: EmbeddingInputKind, b: EmbeddingInputKind)
    requires
        a != b,
    ensures
        wire_label(a) != wire_label(b),
{
    reveal_strlit("title");
    reveal_strlit("heading");
    reveal_strlit("summary");
    reveal_strlit("sentence");
    reveal_strlit("entity");
    reveal_strlit("keyword");
    reveal_strlit("url_signal");
    reveal_strlit("document");
    reveal_strlit("query");
    if wire_label(a) == wire_label(b) {
        let la = wire_label(a);
        let lb = wire_label(b);
        assert(la.len() == lb.len());
        assert(la[0] == lb[0]);
        assert(la[1] == lb[1]);
        assert(la[la.len() - 1] == lb[lb.len() - 1]);
    }
}

/// Each kind's wire name is its variant name in snake_case.
pub proof fn lemma_wire_names_are_snake_case()
    ensures
        wire_label(EmbeddingInputKind::Title) == "title"@,
        wire_label(EmbeddingInputKind::Heading) == "heading"@,
        wire_label(EmbeddingInputKind::Summary) == "summary"@,
        wire_label(EmbeddingInputKind::Sentence) == "sentence"@,
        wire_label(EmbeddingInputKind::Entity) == "entity"@,
        wire_label(EmbeddingInputKind::Keyword) == "keyword"@,
        wire_label(EmbeddingInputKind::UrlSignal) == "url_signal"@,
        wire_label(EmbeddingInputKind::Document) == "document"@,
        wire_label(EmbeddingInputKind::Query) == "query"@,
{
}

/// One weighted piece of text to embed. `weight` is the bit pattern of the
/// `f32` weight (`f32::to_bits`).
#[derive(Debug, Clone)]
pub struct EmbeddingInput {
    pub kind: EmbeddingInputKind,
    pub ordinal: u16,
    pub text: String,
    pub weight: u32,
}

/// Why an embedding input is rejected, if it is.
pub open spec fn input_error(input: EmbeddingInput) -> Option<(Seq<char>, Seq<char>)> {
    let count = input.text@.len();
    if !(1 <= count && count <= MAX_EMBEDDING_INPUT_CHARS) {
        Some(
            (
                "invalid_embedding_input_text"@,
                "embedding input text must contain 1 to "@ + text::decimal(
                    MAX_EMBEDDING_INPUT_CHARS as nat,
                ) + " characters"@,
            ),
        )
    } else if !float_bits::f32_is_finite(input.weight) || !float_bits::f32_in_range(F32_TENTH, F32_TWO, input.weight) {
        Some(
            (
                "invalid_embedding_input_weight"@,
                "embedding input weight must be finite and between 0.1 and 2.0"@,
            ),
        )
    } else {
        None
    }
}

impl EmbeddingInput {
    /// Accepts a text of 1 to `MAX_EMBEDDING_INPUT_CHARS` characters and a
    /// finite weight between 0.1 and 2.0.
    pub fn validate(&self) -> (r: Result<(), SemanticContractError>)
        ensures
            contract_outcome(r) == input_error(*self),
    {
        let character_count = self.text.as_str().unicode_len();
        if !(1 <= character_count && character_count <= MAX_EMBEDDING_INPUT_CHARS) {
            let mut message = String::from_str("embedding input text must contain 1 to ");
            push_decimal(&mut message, MAX_EMBEDDING_INPUT_CHARS as u64);
            message.append(" characters");
            return Err(SemanticContractError::new("invalid_embedding_input_text", message));
        }
        if !f32_bits_is_finite(self.weight) || !f32_bits_in_range(F32_TENTH, F32_TWO, self.weight) {
            return Err(
                SemanticContractError::new(
                    "invalid_embedding_input_weight",
                    String::from_str("embedding input weight must be finite and between 0.1 and 2.0"),
                ),
            );
        }
        Ok(())
    }
}

/// Why the inputs from position `i` on are rejected: the first one that is
/// invalid or whose ordinal is not its position.
pub open spec fn inputs_error_from(inputs: Seq<EmbeddingInput>, i: int) -> Option<(Seq<char>, Seq<char>)>
    decreases inputs.len() - i,
{
    if i < 0 || i >= inputs.len() {
        None
    } else if input_error(inputs[i]) is Some {
        input_error(inputs[i])
    } else if inputs[i].ordinal != i {
        Some(
            (
                "invalid_embedding_input_ordinal"@,
                "embedding input ordinals must be contiguous and start at zero"@,
            ),
        )
    } else {
        inputs_error_from(inputs, i + 1)
    }
}

/// Why a list of embedding inputs is rejected, if it is.
pub open spec fn inputs_error(inputs: Seq<EmbeddingInput>) -> Option<(Seq<char>, Seq<char>)> {
    inputs_error_from(inputs, 0)
}

proof fn lemma_inputs_error_from_ok(inputs: Seq<EmbeddingInput>, i: int)
    requires
        0 <= i <= inputs.len(),
        inputs_error_from(inputs, i) is None,
    ensures
        forall|j: int|
            i <= j < inputs.len() ==> input_error(#[trigger] inputs[j]) is None && inputs[j].ordinal
                == j,
    decreases inputs.len() - i,
{
    if i < inputs.len() {
        lemma_inputs_error_from_ok(inputs, i + 1);
    }
}

/// Checks each input and its ordinal, in order, stopping at the first fault.
fn validate_inputs(inputs: &Vec<EmbeddingInput>) -> (r: Result<(), SemanticContractError>)
    ensures
        contract_outcome(r) == inputs_error(inputs@),
{
    let n = inputs.len();
    let mut i: usize = 0;
    while i < n
        invariant
            i <= n == inputs@.len(),
            inputs_error(inputs@) == inputs_error_from(inputs@, i as int),
        decreases n - i,
    {
        let input = &inputs[i];
        input.validate()?;
        if input.ordinal as usize != i {
            return Err(
                SemanticContractError::new(
                    "invalid_embedding_input_ordinal",
                    String::from_str("embedding input ordinals must be contiguous and start at zero"),
                ),
            );
        }
        i = i + 1;
    }
    Ok(())
}

/// The text views derived from one page, with the inputs to embed.
#[derive(Debug, Clone)]
pub struct SemanticTextViews {
    pub document_text: String,
    pub title: Option<String>,
    pub summary: String,
    pub keywords: Vec<String>,
    pub entities: Vec<String>,
    pub embedding_inputs: Vec<EmbeddingInput>,
}

/// Why page views are rejected, if they are.
pub open spec fn semantic_views_error(views: SemanticTextViews) -> Option<(Seq<char>, Seq<char>)> {
    let count = views.embedding_inputs@.len();
    if text::trim(views.document_text@).len() == 0 {
        Some(("empty_document_text"@, "document_text must not be empty"@))
    } else if text::trim(views.summary@).len() == 0 {
        Some(("empty_summary"@, "summary must not be empty"@))
    } else if count == 0 || count > MAX_EMBEDDING_INPUTS {
        Some(
            (
                "invalid_embedding_inputs"@,
                "semantic views must contain 1 to "@ + text::decimal(MAX_EMBEDDING_INPUTS as nat)
                    + " embedding inputs"@,
            ),
        )
    } else {
        inputs_error(views.embedding_inputs@)
    }
}

/// One line of the combined text: `"{wire_name}: {text}\n"`.
pub open spec fn embedding_line(input: EmbeddingInput) -> Seq<char> {
    wire_label(input.kind) + ": "@ + input.text@ + "\n"@
}

/// The combined text after the first `n` inputs, and whether it has
/// stopped growing: a line is added while it still fits within
/// `MAX_COMBINED_EMBEDDING_CHARS`, and the first line that does not fit ends
/// the text.
pub open spec fn combined_prefix(inputs: Seq<EmbeddingInput>, n: nat) -> (Seq<char>, bool)
    decreases n,
{
    if n == 0 {
        (Seq::empty(), false)
    } else {
        let (joined, stopped) = combined_prefix(inputs, (n - 1) as nat);
        let line = embedding_line(inputs[n - 1]);
        if stopped {
            (joined, true)
        } else if joined.len() + line.len() > MAX_COMBINED_EMBEDDING_CHARS {
            (joined, true)
        } else {
            (joined + line, false)
        }
    }
}

/// The combined embedding text of a list of inputs: the lines that fit, with
/// trailing white space removed.
pub open spec fn combined_text(inputs: Seq<EmbeddingInput>) -> Seq<char> {
    text::trim_end(combined_prefix(inputs, inputs.len()).0)
}

/// The lines of the first `k` inputs, one after the other.
pub open spec fn first_lines(inputs: Seq<EmbeddingInput>, k: nat) -> Seq<char>
    decreases k,
{
    if k == 0 {
        Seq::empty()
    } else {
        first_lines(inputs, (k - 1) as nat) + embedding_line(inputs[k - 1])
    }
}

impl SemanticTextViews {
    /// Accepts non-blank document text and summary and 1 to
    /// `MAX_EMBEDDING_INPUTS` valid inputs whose ordinals are their positions.
    pub fn validate(&self) -> (r: Result<(), SemanticContractError>)
        ensures
            contract_outcome(r) == semantic_views_error(*self),
    {
        if is_blank(self.document_text.as_str()) {
            return Err(
                SemanticContractError::new(
                    "empty_document_text",
                    String::from_str("document_text must not be empty"),
                ),
            );
        }
        if is_blank(self.summary.as_str()) {
            return Err(
                SemanticContractError::new(
                    "empty_summary",
                    String::from_str("summary must not be empty"),
                ),
            );
        }
        if self.embedding_inputs.len() == 0 || self.embedding_inputs.len() > MAX_EMBEDDING_INPUTS {
            let mut message = String::from_str("semantic views must contain 1 to ");
            push_decimal(&mut message, MAX_EMBEDDING_INPUTS as u64);
            message.append(" embedding inputs");
            return Err(SemanticContractError::new("invalid_embedding_inputs", message));
        }
        validate_inputs(&self.embedding_inputs)
    }

    /// Joins `"{kind}: {text}"` lines of the inputs, in order, while the text
    /// stays within `MAX_COMBINED_EMBEDDING_CHARS` characters; trailing white
    /// space is removed.
    pub fn combined_embedding_text(&self) -> (combined: String)
        ensures
            combined@ == combined_text(self.embedding_inputs@),
    {
        let inputs = &self.embedding_inputs;
        let n = inputs.len();
        let mut output = String::new();
        let mut output_count: usize = 0;
        let mut i: usize = 0;
        while i < n
            invariant_except_break
                i <= n == inputs@.len(),
                combined_prefix(inputs@, i as nat) == (output@, false),
                output_count == output@.len() <= MAX_COMBINED_EMBEDDING_CHARS,
            ensures
                combined_prefix(inputs@, n as nat).0 == output@,
            decreases n - i,
        {
            let input = &inputs[i];
            let mut line = String::from_str(input.kind.wire_name());
            line.append(": ");
            line.append(input.text.as_str());
            line.append("\n");
            assert(line@ == embedding_line(inputs@[i as int]));
            let line_count = line.as_str().unicode_len();
            if line_count > MAX_COMBINED_EMBEDDING_CHARS - output_count {
                proof {
                    lemma_combined_prefix_stays(inputs@, (i + 1) as nat, n as nat);
                }
                break;
            }
            output.append(line.as_str());
            output_count = output_count + line_count;
            i = i + 1;
        }
        let chars = chars_of(output.as_str());
        let end = trim_end_bound(&chars);
        let trimmed = output.as_str().substring_char(0, end);
        String::from_str(trimmed)
    }
}

/// Once the combined text has stopped growing it no longer changes.
proof fn lemma_combined_prefix_stays(inputs: Seq<EmbeddingInput>, m: nat, n: nat)
    requires
        m <= n,
        combined_prefix(inputs, m).1,
    ensures
        combined_prefix(inputs, n) == combined_prefix(inputs, m),
    decreases n - m,
{
    if m < n {
        lemma_combined_prefix_stays(inputs, m, (n - 1) as nat);
    }
}

/// The combined text is the longest run of leading lines that fits: it holds
/// the first `k` lines whole, in order, within the character limit, and the
/// next line, if any, would not have fitted.
pub proof fn lemma_combined_prefix_is_longest_fitting(inputs: Seq<EmbeddingInput>, n: nat)
    requires
        n <= inputs.len(),
    ensures
        exists|k: nat|
            #![trigger first_lines(inputs, k)]
            k <= n && combined_prefix(inputs, n).0 == first_lines(inputs, k) && first_lines(
                inputs,
                k,
            ).len() <= MAX_COMBINED_EMBEDDING_CHARS && (combined_prefix(inputs, n).1 <==> k
                < n) && (k < n ==> first_lines(inputs, k).len() + embedding_line(inputs[k as int]).len()
                > MAX_COMBINED_EMBEDDING_CHARS),
    decreases n,
{
    if n == 0 {
        assert(combined_prefix(inputs, 0).0 == first_lines(inputs, 0));
    } else {
        lemma_combined_prefix_is_longest_fitting(inputs, (n - 1) as nat);
        let k = choose|k: nat|
            #![trigger first_lines(inputs, k)]
            k <= (n - 1) as nat && combined_prefix(inputs, (n - 1) as nat).0 == first_lines(inputs, k)
                && first_lines(inputs, k).len() <= MAX_COMBINED_EMBEDDING_CHARS && (combined_prefix(
                inputs,
                (n - 1) as nat,
            ).1 <==> k < (n - 1) as nat) && (k < (n - 1) as nat ==> first_lines(inputs, k).len()
                + embedding_line(inputs[k as int]).len() > MAX_COMBINED_EMBEDDING_CHARS);
        let prev = combined_prefix(inputs, (n - 1) as nat);
        if prev.1 {
            assert(combined_prefix(inputs, n).0 == first_lines(inputs, k));
        } else if prev.0.len() + embedding_line(inputs[n - 1]).len() > MAX_COMBINED_EMBEDDING_CHARS {
            assert(k == n - 1);
            assert(combined_prefix(inputs, n).0 == first_lines(inputs, k));
        } else {
            assert(k == n - 1);
            assert(first_lines(inputs, n) == first_lines(inputs, (n - 1) as nat) + embedding_line(
                inputs[n - 1],
            ));
            assert(combined_prefix(inputs, n).0 == first_lines(inputs, n));
        }
    }
}

/// The combined embedding text never exceeds `MAX_COMBINED_EMBEDDING_CHARS`
/// characters, and it is a prefix of the lines of all inputs, one after the
/// other.
pub proof fn lemma_combined_text_bounded_prefix(inputs: Seq<EmbeddingInput>)
    ensures
        combined_text(inputs).len() <= MAX_COMBINED_EMBEDDING_CHARS,
        first_lines(inputs, inputs.len()).take(combined_text(inputs).len() as int) == combined_text(
            inputs,
        ),
{
    lemma_combined_prefix_is_longest_fitting(inputs, inputs.len());
    let k = choose|k: nat|
        #![trigger first_lines(inputs, k)]
        k <= inputs.len() && combined_prefix(inputs, inputs.len()).0 == first_lines(inputs, k)
            && first_lines(inputs, k).len() <= MAX_COMBINED_EMBEDDING_CHARS && (combined_prefix(
            inputs,
            inputs.len(),
        ).1 <==> k < inputs.len()) && (k < inputs.len() ==> first_lines(inputs, k).len()
            + embedding_line(inputs[k as int]).len() > MAX_COMBINED_EMBEDDING_CHARS);
    let full = combined_prefix(inputs, inputs.len()).0;
    lemma_trim_end_is_prefix(full);
    lemma_first_lines_prefix(inputs, k, inputs.len());
    let t = combined_text(inputs);
    assert(first_lines(inputs, inputs.len()).take(t.len() as int) =~= t);
}

proof fn lemma_trim_end_is_prefix(s: Seq<char>)
    ensures
        text::trim_end(s).len() <= s.len(),
        s.take(text::trim_end(s).len() as int) == text::trim_end(s),
    decreases s.len(),
{
    if s.len() > 0 && text::is_space(s.last()) {
        lemma_trim_end_is_prefix(s.drop_last());
        assert(s.take(text::trim_end(s).len() as int) =~= s.drop_last().take(text::trim_end(s).len() as int));
    } else {
        assert(s.take(s.len() as int) =~= s);
    }
}

proof fn lemma_first_lines_prefix(inputs: Seq<EmbeddingInput>, k: nat, n: nat)
    requires
        k <= n,
    ensures
        first_lines(inputs, k).len() <= first_lines(inputs, n).len(),
        first_lines(inputs, n).take(first_lines(inputs, k).len() as int) == first_lines(inputs, k),
    decreases n - k,
{
    if k < n {
        lemma_first_lines_prefix(inputs, k, (n - 1) as nat);
        let a = first_lines(inputs, k);
        let b = first_lines(inputs, (n - 1) as nat);
        assert(first_lines(inputs, n).take(a.len() as int) =~= b.take(a.len() as int));
    } else {
        assert(first_lines(inputs, n).take(first_lines(inputs, n).len() as int) =~= first_lines(
            inputs,
            n,
        ));
    }
}

/// The views derived from an alert query, with the inputs to embed.
#[derive(Debug, Clone)]
pub struct QueryTextViews {
    pub query_text: String,
    pub keywords: Vec<String>,
    pub entities: Vec<String>,
    pub embedding_inputs: Vec<EmbeddingInput>,
}

/// Why query views are rejected, if they are.
pub open spec fn query_views_error(views: QueryTextViews) -> Option<(Seq<char>, Seq<char>)> {
    let characters = views.query_text@.len();
    let count = views.embedding_inputs@.len();
    if !(3 <= characters && characters <= 2_000) {
        Some(("invalid_query_text"@, "query_text must contain 3 to 2,000 characters"@))
    } else if count == 0 || count > MAX_EMBEDDING_INPUTS {
        Some(
            (
                "invalid_embedding_inputs"@,
                "query views must contain 1 to "@ + text::decimal(MAX_EMBEDDING_INPUTS as nat)
                    + " embedding inputs"@,
            ),
        )
    } else if inputs_error(views.embedding_inputs@) is Some {
        inputs_error(views.embedding_inputs@)
    } else if views.embedding_inputs@[0].kind != EmbeddingInputKind::Query
        || views.embedding_inputs@[0].text@ != views.query_text@ {
        Some(
            (
                "invalid_query_embedding_inputs"@,
                "the first query embedding input must preserve the complete query text"@,
            ),
        )
    } else {
        None
    }
}

impl QueryTextViews {
    /// Accepts a query of 3 to 2,000 characters and 1 to
    /// `MAX_EMBEDDING_INPUTS` valid, in-order inputs of which the first is the
    /// query itself: of the `Query` kind, holding the complete query text.
    pub fn validate(&self) -> (r: Result<(), SemanticContractError>)
        ensures
            contract_outcome(r) == query_views_error(*self),
    {
        let character_count = self.query_text.as_str().unicode_len();
        if !(3 <= character_count && character_count <= 2_000) {
            return Err(
                SemanticContractError::new(
                    "invalid_query_text",
                    String::from_str("query_text must contain 3 to 2,000 characters"),
                ),
            );
        }
        if self.embedding_inputs.len() == 0 || self.embedding_inputs.len() > MAX_EMBEDDING_INPUTS {
            let mut message = String::from_str("query views must contain 1 to ");
            push_decimal(&mut message, MAX_EMBEDDING_INPUTS as u64);
            message.append(" embedding inputs");
            return Err(SemanticContractError::new("invalid_embedding_inputs", message));
        }
        validate_inputs(&self.embedding_inputs)?;
        let first = &self.embedding_inputs[0];
        if first.kind != EmbeddingInputKind::Query || first.text != self.query_text {
            return Err(
                SemanticContractError::new(
                    "invalid_query_embedding_inputs",
                    String::from_str(
                        "the first query embedding input must preserve the complete query text",
                    ),
                ),
            );
        }
        Ok(())
    }
}

/// Whether an input satisfies the input rules, stated on its fields: a text
/// of 1 to 700 characters and a weight from 0.1 to 2.0 (by bit pattern).
pub open spec fn input_within_bounds(input: EmbeddingInput) -> bool {
    1 <= input.text@.len() <= 700 && 0x3DCC_CCCD <= input.weight <= 0x4000_0000
}

/// An embedding input is accepted exactly when its text holds 1 to 700
/// characters and its weight is a binary32 value from 0.1 to 2.0; a text of
/// another length is refused first, with its own code.
pub proof fn lemma_input_acceptance(input: EmbeddingInput)
    ensures
        input_error(input) is None <==> input_within_bounds(input),
        !(1 <= input.text@.len() <= 700) ==> (input_error(input) matches Some(e) && e.0
            == "invalid_embedding_input_text"@),
        1 <= input.text@.len() <= 700 && !(0x3DCC_CCCD <= input.weight <= 0x4000_0000)
            ==> input_error(input) == Some(
            (
                "invalid_embedding_input_weight"@,
                "embedding input weight must be finite and between 0.1 and 2.0"@,
            ),
        ),
{
    float_bits::lemma_weight_range_patterns(input.weight);
}

proof fn lemma_inputs_error_from_all_pass(inputs: Seq<EmbeddingInput>, i: int)
    requires
        0 <= i,
        forall|j: int|
            i <= j < inputs.len() ==> input_error(#[trigger] inputs[j]) is None && inputs[j].ordinal
                == j,
    ensures
        inputs_error_from(inputs, i) is None,
    decreases inputs.len() - i,
{
    if i < inputs.len() {
        lemma_inputs_error_from_all_pass(inputs, i + 1);
    }
}

/// A list of inputs is accepted exactly when every input is within bounds and
/// carries its own position as ordinal.
pub proof fn lemma_inputs_acceptance(inputs: Seq<EmbeddingInput>)
    ensures
        inputs_error(inputs) is None <==> forall|i: int|
            0 <= i < inputs.len() ==> input_within_bounds(#[trigger] inputs[i]) && inputs[i].ordinal
                == i,
{
    assert forall|i: int| 0 <= i < inputs.len() implies (input_error(#[trigger] inputs[i]) is None
        <==> input_within_bounds(inputs[i])) by {
        lemma_input_acceptance(inputs[i]);
    }
    if inputs_error(inputs) is None {
        lemma_inputs_error_from_ok(inputs, 0);
    }
    if forall|i: int|
        0 <= i < inputs.len() ==> input_within_bounds(#[trigger] inputs[i]) && inputs[i].ordinal
            == i {
        lemma_inputs_error_from_all_pass(inputs, 0);
    }
}

/// Page views are accepted exactly when the document text and the summary are
/// non-blank and there are 1 to 96 inputs, each within bounds and carrying
/// its position as ordinal. A blank document text is refused first, then a
/// blank summary, whatever the other fields hold.
pub proof fn lemma_semantic_views_acceptance(views: SemanticTextViews)
    ensures
        semantic_views_error(views) is None <==> {
            &&& text::trim(views.document_text@).len() > 0
            &&& text::trim(views.summary@).len() > 0
            &&& 1 <= views.embedding_inputs@.len() <= 96
            &&& forall|i: int|
                0 <= i < views.embedding_inputs@.len() ==> input_within_bounds(
                    #[trigger] views.embedding_inputs@[i],
                ) && views.embedding_inputs@[i].ordinal == i
        },
        text::trim(views.document_text@).len() == 0 ==> semantic_views_error(views) == Some(
            ("empty_document_text"@, "document_text must not be empty"@),
        ),
        text::trim(views.document_text@).len() > 0 && text::trim(views.summary@).len() == 0
            ==> semantic_views_error(views) == Some(
            ("empty_summary"@, "summary must not be empty"@),
        ),
{
    lemma_inputs_acceptance(views.embedding_inputs@);
}

/// Accepted page views carry 1 to `MAX_EMBEDDING_INPUTS` valid inputs whose
/// ordinals are exactly their positions 0, 1, 2, ..., and non-blank document
/// text and summary.
pub proof fn lemma_accepted_semantic_views_are_ordered(views: SemanticTextViews)
    requires
        semantic_views_error(views) is None,
    ensures
        text::trim(views.document_text@).len() > 0,
        text::trim(views.summary@).len() > 0,
        1 <= views.embedding_inputs@.len() <= MAX_EMBEDDING_INPUTS,
        forall|i: int|
            0 <= i < views.embedding_inputs@.len() ==> input_error(
                #[trigger] views.embedding_inputs@[i],
            ) is None && input_within_bounds(views.embedding_inputs@[i])
                && views.embedding_inputs@[i].ordinal == i,
{
    lemma_inputs_error_from_ok(views.embedding_inputs@, 0);
    lemma_semantic_views_acceptance(views);
}

/// Query views are accepted exactly when the query holds 3 to 2,000
/// characters, there are 1 to 96 inputs, each within bounds and carrying its
/// position as ordinal, and the first input is of the `Query` kind and holds
/// the complete query text.
pub proof fn lemma_query_views_acceptance(views: QueryTextViews)
    ensures
        query_views_error(views) is None <==> {
            &&& 3 <= views.query_text@.len() <= 2_000
            &&& 1 <= views.embedding_inputs@.len() <= 96
            &&& forall|i: int|
                0 <= i < views.embedding_inputs@.len() ==> input_within_bounds(
                    #[trigger] views.embedding_inputs@[i],
                ) && views.embedding_inputs@[i].ordinal == i
            &&& views.embedding_inputs@[0].kind == EmbeddingInputKind::Query
            &&& views.embedding_inputs@[0].text@ == views.query_text@
        },
{
    lemma_inputs_acceptance(views.embedding_inputs@);
}

/// Accepted query views start with the complete query: their first input has
/// the `Query` kind and exactly the query text, and every input is valid and
/// in order.
pub proof fn lemma_accepted_query_views_lead_with_query(views: QueryTextViews)
    requires
        query_views_error(views) is None,
    ensures
        3 <= views.query_text@.len() <= 2_000,
        1 <= views.embedding_inputs@.len() <= MAX_EMBEDDING_INPUTS,
        views.embedding_inputs@[0].kind == EmbeddingInputKind::Query,
        views.embedding_inputs@[0].text@ == views.query_text@,
        forall|i: int|
            0 <= i < views.embedding_inputs@.len() ==> input_error(
                #[trigger] views.embedding_inputs@[i],
            ) is None && input_within_bounds(views.embedding_inputs@[i])
                && views.embedding_inputs@[i].ordinal == i,
{
    lemma_inputs_error_from_ok(views.embedding_inputs@, 0);
    lemma_query_views_acceptance(views);
}

/// The combined text so far depends only on the inputs so far: inputs added
/// after the first `n` do not change it.
pub proof fn lemma_combined_prefix_ignores_later_inputs(a: Seq<EmbeddingInput>, b: Seq<EmbeddingInput>, n: nat)
    requires
        n <= a.len(),
    ensures
        combined_prefix(a + b, n) == combined_prefix(a, n),
    decreases n,
{
    if n > 0 {
        lemma_combined_prefix_ignores_later_inputs(a, b, (n - 1) as nat);
        assert((a + b)[n - 1] == a[n - 1]);
    }
}

/// Adding one input to a combined text that has not stopped either appends
/// the line `"{wire name of its kind}: {text}\n"` when the result stays within
/// 24,000 characters, or stops the text unchanged.
pub proof fn lemma_combined_prefix_push(inputs: Seq<EmbeddingInput>, x: EmbeddingInput)
    requires
        !combined_prefix(inputs, inputs.len()).1,
    ensures
        ({
            let before = combined_prefix(inputs, inputs.len()).0;
            let line = wire_label(x.kind) + ": "@ + x.text@ + "\n"@;
            let after = combined_prefix(inputs.push(x), inputs.len() + 1);
            &&& before.len() + line.len() <= 24_000 ==> after == (before + line, false)
            &&& before.len() + line.len() > 24_000 ==> after == (before, true)
        }),
{
    lemma_combined_prefix_ignores_later_inputs(inputs, seq![x], inputs.len());
    assert(inputs + seq![x] =~= inputs.push(x));
    assert(inputs.push(x)[inputs.len() as int] == x);
}

/// Once a line has not fitted, any inputs after it leave the combined text
/// as it is.
pub proof fn lemma_combined_text_ignores_inputs_after_stop(a: Seq<EmbeddingInput>, b: Seq<EmbeddingInput>)
    requires
        combined_prefix(a, a.len()).1,
    ensures
        combined_text(a + b) == combined_text(a),
{
    lemma_combined_prefix_ignores_later_inputs(a, b, a.len());
    lemma_combined_prefix_stays(a + b, a.len(), (a + b).len());
}

/// The combined text of one input whose line fits is that line,
/// `"{wire name of its kind}: {text}"`, with trailing white space removed.
pub proof fn lemma_combined_text_of_one_input(x: EmbeddingInput)
    requires
        (wire_label(x.kind) + ": "@ + x.text@ + "\n"@).len() <= 24_000,
    ensures
        combined_text(seq![x]) == text::trim_end(wire_label(x.kind) + ": "@ + x.text@ + "\n"@),
{
    let empty = Seq::<EmbeddingInput>::empty();
    assert(empty.push(x) =~= seq![x]);
    assert(combined_prefix(empty, 0) == (Seq::<char>::empty(), false));
    lemma_combined_prefix_push(empty, x);
    assert(Seq::<char>::empty() + (wire_label(x.kind) + ": "@ + x.text@ + "\n"@) =~= wire_label(
        x.kind,
    ) + ": "@ + x.text@ + "\n"@);
}

} // verus!
