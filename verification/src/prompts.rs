use vstd::prelude::*;
use vstd::string::*;
use crate::request::{CompletionRequest, Sampling};
use crate::text::owned;

verus! {

/// What the assistant is told when it keeps the letter conversation going.
pub const CHAT_SYSTEM_PROMPT: &'static str = "You are an assistant designed to help users gather information for writing a letter. Based on the user's entire conversation history, analyze the details and ask about any missing information.You also need to ask basic information about the name of recipient , details of the recipient , who will be sending the letter, does the letter need to be confirmed by someone and the most important to provide the type of the letter and its content. Ensure consistency and do not ask for previously provided details. The response should only be asking 1-3 questions at a time. Prioritize your response in questioning about the main content of the letter. Make sure that your responses will be like conversation just provide 2-5 sentence to you response";

/// What the assistant is told when it turns the conversation into the parts of a letter.
pub const LETTER_VALUES_SYSTEM_PROMPT: &'static str = "Your task is to generate values for the different parts of a formal letter based on the conversation's history of questions and answers. The response should be in array format, with the following parts in this exact order:

            1. **Date of the Letter** (formatted as 'Month D, YYYY', e.g., January 05, 2002). If the date is missing, insert '[Date of letter]' as a placeholder. If it states that today is the date just still put [Date of letter].
            2. **Recipient Name** (formatted as 'First Name Middle Initial, Last Name', e.g., Juan Joseph D. Cruz if Middle Initial and Lastname is not clear write the fullname base on the conversation). If the recipient's name is missing, insert '[Recipient name]'.
            3. **Recipient Details**, write each line all the personal details such as job position, recipient address or depends on the details given. 
                **Note:** If any of the recipient details are missing, leave the corresponding insert '[Recipient details]'. You must segregate each line the details. 
            4. **Subject of the Letter** (e.g., Demand Letter, Formal Demand Letter, Notice of Breach of Contract, Cease and Desist Order, Notice of Intent to Sue). If the subject is missing, insert '[Type of letter]'.
            5. **Sender's Full Name** (formatted as 'First Name, Middle Initial, Last Name'). If the sender's name is missing put Atty. Jerico D. Salenga.
            6. **Conforme** (If the letter requires a signature of conformity, include the full name of the person who needs to sign; if not, insert 'Conforme not needed').
            7. **Main Content** (All relevant details needed in the body of the letter and explain it briefly).

            Ensure that the array contains exactly these seven elements. For missing details, provide short descriptions inside brackets as placeholders (e.g., '[Date of letter]', '[Recipient name]'). For recipient details, if all lines are missing, return '[Recipient details]'; otherwise, leave specific lines blank if they are missing. 
            Use '<br />' if you need to add a new line Never use '\\n if you will add a new line'.
            You must not include the backticks such as '```json ```' when you return a value.";

/// What the assistant is told when it argues the legal basis of a pleading.
pub const LEGAL_BASIS_SYSTEM_PROMPT: &'static str = "Generate the legal arguments and basis for the pleading, including any relevant laws that support the client. Base your explanation on Philippine law and keep it concise.";

/// What the assistant is told, before the template, when it writes a pleading.
pub const PLEADING_INSTRUCTIONS: &'static str = "Your task is to create a pleading. Generate the sections of the pleading that can support the client. Base all the details on the facts and legal basis provided. You must expound upon the details given. Format it in HTML and replicate the alignment in this template: ";

/// What the assistant is told when it reworks a transcript.
pub const CORRECTION_SYSTEM_PROMPT: &'static str = "Turn it into a pleading format";

pub const LETTER_MODEL: &'static str = "gpt-4o-mini";

pub const PLEADING_MODEL: &'static str = "gpt-4";

pub const CORRECTION_MODEL: &'static str = "gpt-4o";

/// Stands between two question-and-answer blocks: a backslash and the letter `n`.
pub const HISTORY_SEPARATOR: &'static str = "\\n";

pub const CONVERSATION_PREFIX: &'static str = "Conversation history so far:\n";

pub const FOLLOW_UP_PROMPT: &'static str = "\\nIs there anything else you'd like to add?";

pub const FACTS_PREFIX: &'static str = "Generate the legal arguments according to the following facts: \n";

pub const CASE_DETAILS_PREFIX: &'static str = "Here are details presented in the case:\n\n            Facts:";

pub const LEGAL_BASIS_LABEL: &'static str = "\n\n            Legal Basis: ";

pub const CASE_DETAILS_SUFFIX: &'static str = "\n\n\n            ";

/// One question and its answer.
pub open spec fn qa_block(question: Seq<char>, answer: Seq<char>) -> Seq<char> {
    "Q: "@ + question + "\nA: "@ + answer
}

/// How many question-and-answer pairs there are: unpaired entries are left out.
pub open spec fn pair_count(questions: Seq<String>, answers: Seq<String>) -> nat {
    if questions.len() <= answers.len() {
        questions.len()
    } else {
        answers.len()
    }
}

/// The blocks of the pairs, in order.
pub open spec fn qa_blocks(questions: Seq<String>, answers: Seq<String>) -> Seq<Seq<char>> {
    Seq::new(pair_count(questions, answers), |i: int| qa_block(questions[i]@, answers[i]@))
}

/// The parts one after another, with `separator` between each two.
pub open spec fn join_with(parts: Seq<Seq<char>>, separator: Seq<char>) -> Seq<char>
    decreases parts.len(),
{
    if parts.len() == 0 {
        Seq::empty()
    } else if parts.len() == 1 {
        parts[0]
    } else {
        join_with(parts.drop_last(), separator) + separator + parts.last()
    }
}

/// The conversation so far, as the assistant reads it.
pub open spec fn conversation_history_text(questions: Seq<String>, answers: Seq<String>) -> Seq<
    char,
> {
    join_with(qa_blocks(questions, answers), HISTORY_SEPARATOR@)
}

/// The blocks "Q: question\nA: answer" of the pairs, joined by a backslash and `n`.
pub fn conversation_history(questions: &Vec<String>, answers: &Vec<String>) -> (res: String)
    ensures
        res@ == conversation_history_text(questions@, answers@),
{
    let n = if questions.len() <= answers.len() {
        questions.len()
    } else {
        answers.len()
    };
    let ghost blocks = qa_blocks(questions@, answers@);
    let mut res = String::new();
    for i in 0..n
        invariant
            n == blocks.len(),
            n <= questions@.len(),
            n <= answers@.len(),
            blocks == qa_blocks(questions@, answers@),
            res@ == join_with(blocks.take(i as int), HISTORY_SEPARATOR@),
    {
        let ghost before = res@;
        if i != 0 {
            res.append(HISTORY_SEPARATOR);
        }
        res.append("Q: ");
        res.append(questions[i].as_str());
        res.append("\nA: ");
        res.append(answers[i].as_str());
        assert(blocks.take(i + 1).drop_last() =~= blocks.take(i as int));
        assert(blocks.take(i + 1).last() == blocks[i as int]);
        assert(res@ =~= join_with(blocks.take(i + 1), HISTORY_SEPARATOR@));
    }
    assert(blocks.take(n as int) =~= blocks);
    res
}


/// A conversation without pairs has an empty history.
pub proof fn law_history_of_no_pairs(questions: Seq<String>, answers: Seq<String>)
    requires
        questions.len() == 0 || answers.len() == 0,
    ensures
        conversation_history_text(questions, answers) == Seq::<char>::empty(),
{
}

/// Entries without a partner take no part in the history.
pub proof fn law_unpaired_entries_are_left_out(questions: Seq<String>, answers: Seq<String>)
    ensures
        ({
            let n = if questions.len() <= answers.len() {
                questions.len() as int
            } else {
                answers.len() as int
            };
            conversation_history_text(questions, answers) == conversation_history_text(
                questions.take(n),
                answers.take(n),
            )
        }),
{
    let n = pair_count(questions, answers) as int;
    assert(qa_blocks(questions, answers) =~= qa_blocks(questions.take(n), answers.take(n)));
}

/// A new pair adds "Q: question\nA: answer" at the end of the history, after a
/// backslash and `n` unless it is the first.
pub proof fn law_history_grows_by_one_block(
    questions: Seq<String>,
    answers: Seq<String>,
    question: String,
    answer: String,
)
    requires
        questions.len() == answers.len(),
    ensures
        conversation_history_text(questions.push(question), answers.push(answer)) == if questions.len()
            == 0 {
            "Q: "@ + question@ + "\nA: "@ + answer@
        } else {
            conversation_history_text(questions, answers) + "\\n"@ + ("Q: "@ + question@ + "\nA: "@
                + answer@)
        },
{
    let longer = qa_blocks(questions.push(question), answers.push(answer));
    let shorter = qa_blocks(questions, answers);
    assert(longer.drop_last() =~= shorter);
    assert(longer.last() == qa_block(question@, answer@));
}

/// The chat prompt is the letter prompt with the follow-up question after it.
pub proof fn law_chat_prompt_extends_letter_prompt(questions: Seq<String>, answers: Seq<String>)
    ensures
        chat_user_prompt(questions, answers) == letter_user_prompt(questions, answers)
            + FOLLOW_UP_PROMPT@,
{
}

/// What the user says when the assistant keeps the letter conversation going.
pub open spec fn chat_user_prompt(questions: Seq<String>, answers: Seq<String>) -> Seq<char> {
    CONVERSATION_PREFIX@ + conversation_history_text(questions, answers) + FOLLOW_UP_PROMPT@
}

/// What the user says when the conversation is turned into the parts of a letter.
pub open spec fn letter_user_prompt(questions: Seq<String>, answers: Seq<String>) -> Seq<char> {
    CONVERSATION_PREFIX@ + conversation_history_text(questions, answers)
}

/// What the user says when the legal basis of a pleading is asked for.
pub open spec fn legal_basis_user_prompt(facts: Seq<char>) -> Seq<char> {
    FACTS_PREFIX@ + facts
}

/// What the system says when a pleading is written after `template`.
pub open spec fn pleading_system_prompt(template: Seq<char>) -> Seq<char> {
    PLEADING_INSTRUCTIONS@ + template + "\n"@
}

/// What the user says when a pleading is written from the facts and the legal basis.
pub open spec fn pleading_user_prompt(facts: Seq<char>, legal_basis: Seq<char>) -> Seq<char> {
    CASE_DETAILS_PREFIX@ + facts + LEGAL_BASIS_LABEL@ + legal_basis + CASE_DETAILS_SUFFIX@
}

/// The completion that asks the client for what the letter still lacks.
pub open spec fn chat_completion_view(questions: Seq<String>, answers: Seq<String>) -> (
    Seq<char>,
    Seq<char>,
    Seq<char>,
    Sampling,
) {
    (
        LETTER_MODEL@,
        CHAT_SYSTEM_PROMPT@,
        chat_user_prompt(questions, answers),
        Sampling::MaxTokens(1024),
    )
}

/// The completion that lists the seven parts of the letter as a JSON array.
pub open spec fn letter_values_completion_view(questions: Seq<String>, answers: Seq<String>) -> (
    Seq<char>,
    Seq<char>,
    Seq<char>,
    Sampling,
) {
    (
        LETTER_MODEL@,
        LETTER_VALUES_SYSTEM_PROMPT@,
        letter_user_prompt(questions, answers),
        Sampling::MaxTokens(1024),
    )
}

/// The completion that argues the legal basis from the facts.
pub open spec fn legal_basis_completion_view(facts: Seq<char>) -> (
    Seq<char>,
    Seq<char>,
    Seq<char>,
    Sampling,
) {
    (
        PLEADING_MODEL@,
        LEGAL_BASIS_SYSTEM_PROMPT@,
        legal_basis_user_prompt(facts),
        Sampling::MaxTokens(1024),
    )
}

/// The completion that writes the pleading in the layout of `template`.
pub open spec fn pleading_completion_view(
    facts: Seq<char>,
    legal_basis: Seq<char>,
    template: Seq<char>,
) -> (Seq<char>, Seq<char>, Seq<char>, Sampling) {
    (
        PLEADING_MODEL@,
        pleading_system_prompt(template),
        pleading_user_prompt(facts, legal_basis),
        Sampling::MaxTokens(2048),
    )
}

/// The completion that reworks a transcript into the form of a pleading.
pub open spec fn correction_completion_view(transcript: Seq<char>) -> (
    Seq<char>,
    Seq<char>,
    Seq<char>,
    Sampling,
) {
    (CORRECTION_MODEL@, CORRECTION_SYSTEM_PROMPT@, transcript, Sampling::ZeroTemperature)
}

/// The completion that asks the client for what the letter still lacks.
pub fn chat_completion(questions: &Vec<String>, answers: &Vec<String>) -> (res: CompletionRequest)
    ensures
        res@ == chat_completion_view(questions@, answers@),
{
    let mut user = owned(CONVERSATION_PREFIX);
    user.append(conversation_history(questions, answers).as_str());
    user.append(FOLLOW_UP_PROMPT);
    CompletionRequest {
        model: owned(LETTER_MODEL),
        system: owned(CHAT_SYSTEM_PROMPT),
        user,
        sampling: Sampling::MaxTokens(1024),
    }
}

/// The completion that lists the seven parts of the letter as a JSON array.
pub fn letter_values_completion(questions: &Vec<String>, answers: &Vec<String>) -> (res:
    CompletionRequest)
    ensures
        res@ == letter_values_completion_view(questions@, answers@),
{
    let mut user = owned(CONVERSATION_PREFIX);
    user.append(conversation_history(questions, answers).as_str());
    CompletionRequest {
        model: owned(LETTER_MODEL),
        system: owned(LETTER_VALUES_SYSTEM_PROMPT),
        user,
        sampling: Sampling::MaxTokens(1024),
    }
}

/// The completion that argues the legal basis from the facts.
pub fn legal_basis_completion(facts: &str) -> (res: CompletionRequest)
    ensures
        res@ == legal_basis_completion_view(facts@),
{
    let mut user = owned(FACTS_PREFIX);
    user.append(facts);
    CompletionRequest {
        model: owned(PLEADING_MODEL),
        system: owned(LEGAL_BASIS_SYSTEM_PROMPT),
        user,
        sampling: Sampling::MaxTokens(1024),
    }
}

/// The completion that writes the pleading in the layout of `template`.
pub fn pleading_completion(facts: &str, legal_basis: &str, template: &str) -> (res:
    CompletionRequest)
    ensures
        res@ == pleading_completion_view(facts@, legal_basis@, template@),
{
    let mut system = owned(PLEADING_INSTRUCTIONS);
    system.append(template);
    system.append("\n");
    let mut user = owned(CASE_DETAILS_PREFIX);
    user.append(facts);
    user.append(LEGAL_BASIS_LABEL);
    user.append(legal_basis);
    user.append(CASE_DETAILS_SUFFIX);
    CompletionRequest {
        model: owned(PLEADING_MODEL),
        system,
        user,
        sampling: Sampling::MaxTokens(2048),
    }
}

/// The completion that reworks a transcript into the form of a pleading.
pub fn correction_completion(transcript: &str) -> (res: CompletionRequest)
    ensures
        res@ == correction_completion_view(transcript@),
{
    CompletionRequest {
        model: owned(CORRECTION_MODEL),
        system: owned(CORRECTION_SYSTEM_PROMPT),
        user: owned(transcript),
        sampling: Sampling::ZeroTemperature,
    }
}

} // verus!
