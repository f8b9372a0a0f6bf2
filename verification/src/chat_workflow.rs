//! Chat workflow items: which response types an item of each type offers,
//! and which are still free to attach.

use vstd::prelude::*;

verus! {

/// How long an item waits for a response before moving on, in seconds,
/// unless its creator chose otherwise.
pub const DEFAULT_RESPONSE_WAIT_IN_SECONDS: i32 = 10;

/// What a workflow item does when the chat reaches it.
#[derive(Clone, Copy, PartialEq, Eq, Structural, Debug)]
pub enum ChatWorkflowItemType {
    Question,
    Render,
    Message,
    Done,
}

/// How a chat participant may respond to a workflow item.
#[derive(Clone, Copy, PartialEq, Eq, Structural, Debug)]
pub enum ChatWorkflowResponseType {
    Answer,
    Noop,
}

/// The response types an item of the given type offers: questions take
/// answers, rendered and plain messages acknowledge with a no-op, a done
/// item takes nothing.
pub open spec fn spec_available_response_types(
    item_type: ChatWorkflowItemType,
) -> Seq<ChatWorkflowResponseType> {
    match item_type {
        ChatWorkflowItemType::Question => seq![ChatWorkflowResponseType::Answer],
        ChatWorkflowItemType::Render => seq![ChatWorkflowResponseType::Noop],
        ChatWorkflowItemType::Message => seq![ChatWorkflowResponseType::Noop],
        ChatWorkflowItemType::Done => Seq::empty(),
    }
}

/// The response types an item of the given type offers.
pub fn available_response_types(item_type: ChatWorkflowItemType) -> (r: Vec<
    ChatWorkflowResponseType,
>)
    ensures
        r@ == spec_available_response_types(item_type),
{
    let mut v: Vec<ChatWorkflowResponseType> = Vec::new();
    match item_type {
        ChatWorkflowItemType::Question => {
            v.push(ChatWorkflowResponseType::Answer);
        },
        ChatWorkflowItemType::Render => {
            v.push(ChatWorkflowResponseType::Noop);
        },
        ChatWorkflowItemType::Message => {
            v.push(ChatWorkflowResponseType::Noop);
        },
        ChatWorkflowItemType::Done => {},
    }
    proof {
        assert(v@ =~= spec_available_response_types(item_type));
    }
    v
}

/// Whether a response of this type may still be attached: answers may repeat,
/// every other type at most once.
pub open spec fn spec_response_type_free(
    t: ChatWorkflowResponseType,
    existing: Seq<ChatWorkflowResponseType>,
) -> bool {
    t is Answer || !existing.contains(t)
}

/// The response types an item still accepts: everything its type offers,
/// except non-answer types already attached — answers may repeat, all other
/// types can be attached only once.
pub fn remaining_response_types(
    item_type: ChatWorkflowItemType,
    existing: &Vec<ChatWorkflowResponseType>,
) -> (r: Vec<ChatWorkflowResponseType>)
    ensures
        r@ == spec_available_response_types(item_type).filter(
            |t: ChatWorkflowResponseType| spec_response_type_free(t, existing@),
        ),
{
    let ghost pred = |t: ChatWorkflowResponseType| spec_response_type_free(t, existing@);
    let available = available_response_types(item_type);
    let mut out: Vec<ChatWorkflowResponseType> = Vec::new();
    let mut i: usize = 0;
    while i < available.len()
        invariant
            available@ == spec_available_response_types(item_type),
            pred == (|t: ChatWorkflowResponseType| spec_response_type_free(t, existing@)),
            0 <= i <= available@.len(),
            out@ == available@.take(i as int).filter(pred),
        decreases available@.len() - i,
    {
        let ghost pref = available@.take(i as int);
        let ghost next = available@.take(i as int + 1);
        proof {
            reveal(Seq::filter);
            assert(next.drop_last() =~= pref);
            assert(next.last() == available@[i as int]);
        }
        let t = available[i];
        let keep = match t {
            ChatWorkflowResponseType::Answer => true,
            _ => !contains_response_type(existing, t),
        };
        if keep {
            out.push(t);
        }
        i = i + 1;
    }
    proof {
        assert(available@.take(available@.len() as int) =~= available@);
    }
    out
}

/// Whether a response of the given type is valid for an item, given the
/// response types attached to it.
pub fn response_valid(
    response_types: &Vec<ChatWorkflowResponseType>,
    response_type: ChatWorkflowResponseType,
) -> (r: bool)
    ensures
        r == response_types@.contains(response_type),
{
    contains_response_type(response_types, response_type)
}

/// Whether the vector holds the response type.
fn contains_response_type(
    v: &Vec<ChatWorkflowResponseType>,
    t: ChatWorkflowResponseType,
) -> (r: bool)
    ensures
        r == v@.contains(t),
{
    let mut i: usize = 0;
    while i < v.len()
        invariant
            0 <= i <= v@.len(),
            forall|j: int| 0 <= j < i ==> v@[j] != t,
        decreases v@.len() - i,
    {
        if v[i] == t {
            return true;
        }
        i = i + 1;
    }
    false
}

/// One item of a chat workflow.
#[derive(Debug)]
pub struct ChatWorkflowItem {
    pub id: u128,
    pub chat_workflow_id: u128,
    pub item_type: ChatWorkflowItemType,
    pub message: Option<String>,
    pub response_wait: i32,
}

/// A workflow item prepared for insertion.
#[derive(Debug)]
pub struct NewChatWorkflowItem {
    pub chat_workflow_id: u128,
    pub item_type: ChatWorkflowItemType,
    pub message: Option<String>,
    pub response_wait: i32,
}

impl ChatWorkflowItem {
    /// A new workflow item; without an explicit wait it waits the default
    /// number of seconds for a response.
    pub fn create(
        chat_workflow_id: u128,
        item_type: ChatWorkflowItemType,
        message: Option<String>,
        response_wait: Option<i32>,
    ) -> (r: NewChatWorkflowItem)
        ensures
            r.chat_workflow_id == chat_workflow_id,
            r.item_type == item_type,
            r.message == message,
            response_wait matches Some(w) ==> r.response_wait == w,
            response_wait is None ==> r.response_wait == DEFAULT_RESPONSE_WAIT_IN_SECONDS,
    {
        NewChatWorkflowItem {
            chat_workflow_id,
            item_type,
            message,
            response_wait: match response_wait {
                Some(w) => w,
                None => DEFAULT_RESPONSE_WAIT_IN_SECONDS,
            },
        }
    }

    /// The response types this item offers.
    pub fn available_response_types(&self) -> (r: Vec<ChatWorkflowResponseType>)
        ensures
            r@ == spec_available_response_types(self.item_type),
    {
        available_response_types(self.item_type)
    }

    /// The response types this item still accepts, given the response types
    /// already attached to it.
    pub fn remaining_response_types(&self, existing: &Vec<ChatWorkflowResponseType>) -> (r: Vec<
        ChatWorkflowResponseType,
    >)
        ensures
            r@ == spec_available_response_types(self.item_type).filter(
                |t: ChatWorkflowResponseType| spec_response_type_free(t, existing@),
            ),
    {
        remaining_response_types(self.item_type, existing)
    }

    /// Whether a response of the given type is valid for this item, given
    /// the response types attached to it.
    pub fn response_valid(
        &self,
        response_types: &Vec<ChatWorkflowResponseType>,
        response_type: ChatWorkflowResponseType,
    ) -> (r: bool)
        ensures
            r == response_types@.contains(response_type),
    {
        response_valid(response_types, response_type)
    }
}

} // verus!
