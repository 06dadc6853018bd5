//! Dispatch of invocations to the contract functions a chaincode declares,
//! and the completion message of each invocation.
use vstd::prelude::*;
use vstd::utf8::*;
use crate::chaincode::context::{Context, cleared, request_of};
use crate::chaincode::message::{MessageBuilder, sent_message, sent_proposal};
use crate::error::BuilderError;
use crate::signer::signature_of;
use crate::transaction::NONCE_LENGTH;
use crate::crypto::utf8_text;
use crate::messages::{
    ChaincodeId, ChaincodeInput, ChaincodeMessage, Response, ResponseView, Timestamp, COMPLETED,
    ERROR, INTERNAL_SERVER_ERROR, NOT_FOUND, REGISTER, RESPONSE, SUCCESS, chaincode_input_from,
};

verus! {

/// Index of the first `:` in `q`, or its length when there is none.
pub open spec fn first_colon(q: Seq<char>) -> int
    decreases q.len(),
{
    if q.len() == 0 {
        0
    } else if q[0] == ':' {
        0
    } else {
        1 + first_colon(q.drop_first())
    }
}

/// Index of the last `:` in `q`, or -1 when there is none.
pub open spec fn last_colon(q: Seq<char>) -> int
    decreases q.len(),
{
    if q.len() == 0 {
        -1
    } else if q.last() == ':' {
        q.len() - 1
    } else {
        last_colon(q.drop_last())
    }
}

/// The contract of a qualified name: what precedes the first `:`, empty
/// when there is no `:`.
pub open spec fn contract_part(q: Seq<char>) -> Seq<char> {
    if last_colon(q) >= 0 {
        q.subrange(0, first_colon(q))
    } else {
        seq![]
    }
}

/// The function of a qualified name: what follows the last `:`.
pub open spec fn function_part(q: Seq<char>) -> Seq<char> {
    q.subrange(last_colon(q) + 1, q.len() as int)
}

proof fn lemma_colon_bounds(q: Seq<char>)
    ensures
        0 <= first_colon(q) <= q.len(),
        -1 <= last_colon(q) < q.len(),
    decreases q.len(),
{
    if q.len() > 0 {
        lemma_colon_bounds(q.drop_first());
        lemma_colon_bounds(q.drop_last());
    }
}

proof fn lemma_first_colon(q: Seq<char>, i: int)
    requires
        0 <= i <= q.len(),
        forall|j: int| 0 <= j < i ==> q[j] != ':',
    ensures
        i < q.len() && q[i] == ':' ==> first_colon(q) == i,
        i == q.len() ==> first_colon(q) == q.len(),
        first_colon(q) >= i,
    decreases i,
{
    lemma_colon_bounds(q);
    if i > 0 {
        assert(q[0] != ':');
        assert forall|j: int| 0 <= j < i - 1 implies q.drop_first()[j] != ':' by {
            assert(q.drop_first()[j] == q[j + 1]);
        }
        lemma_first_colon(q.drop_first(), i - 1);
    }
}

proof fn lemma_last_colon(q: Seq<char>, i: int)
    requires
        0 <= i <= q.len(),
        forall|j: int| i <= j < q.len() ==> q[j] != ':',
    ensures
        i > 0 && q[i - 1] == ':' ==> last_colon(q) == i - 1,
        i == 0 ==> last_colon(q) == -1,
        last_colon(q) < i,
    decreases q.len() - i,
{
    lemma_colon_bounds(q);
    if i < q.len() {
        assert(q.last() != ':');
        assert forall|j: int| i <= j < q.len() - 1 implies q.drop_last()[j] != ':' by {
            assert(q.drop_last()[j] == q[j]);
        }
        lemma_last_colon(q.drop_last(), i);
    } else {
        if i > 0 {
            assert(q.last() == q[i - 1]);
        }
    }
}

proof fn lemma_colon_order(q: Seq<char>)
    ensures
        last_colon(q) >= 0 ==> 0 <= first_colon(q) <= last_colon(q) < q.len(),
        last_colon(q) < 0 ==> first_colon(q) == q.len(),
        -1 <= last_colon(q) < q.len(),
    decreases q.len(),
{
    if q.len() > 0 {
        lemma_colon_order(q.drop_last());
        lemma_colon_order(q.drop_first());
        if q[0] != ':' {
            assert(q.drop_first().len() == q.len() - 1);
        }
        if last_colon(q) < 0 {
            lemma_first_none(q);
        } else {
            lemma_first_le_last(q);
        }
    }
}

proof fn lemma_first_none(q: Seq<char>)
    requires
        last_colon(q) < 0,
    ensures
        first_colon(q) == q.len(),
{
    lemma_no_colon(q);
    lemma_first_colon(q, q.len() as int);
}

proof fn lemma_no_colon(q: Seq<char>)
    requires
        last_colon(q) < 0,
    ensures
        forall|j: int| 0 <= j < q.len() ==> q[j] != ':',
    decreases q.len(),
{
    if q.len() > 0 {
        lemma_no_colon(q.drop_last());
        assert forall|j: int| 0 <= j < q.len() implies q[j] != ':' by {
            if j < q.len() - 1 {
                assert(q.drop_last()[j] == q[j]);
            }
        }
    }
}

proof fn lemma_first_le_last(q: Seq<char>)
    requires
        last_colon(q) >= 0,
    ensures
        0 <= first_colon(q) <= last_colon(q) < q.len(),
{
    lemma_last_is_colon(q);
    lemma_first_before(q, last_colon(q));
}

proof fn lemma_last_is_colon(q: Seq<char>)
    requires
        last_colon(q) >= 0,
    ensures
        last_colon(q) < q.len(),
        q[last_colon(q)] == ':',
    decreases q.len(),
{
    if q.last() != ':' {
        lemma_last_is_colon(q.drop_last());
    }
}

proof fn lemma_first_before(q: Seq<char>, k: int)
    requires
        0 <= k < q.len(),
        q[k] == ':',
    ensures
        0 <= first_colon(q) <= k,
    decreases k,
{
    if q[0] != ':' {
        assert(q.drop_first()[k - 1] == q[k]);
        lemma_first_before(q.drop_first(), k - 1);
    }
}

/// Splits a qualified name into contract and function.
pub fn split_qualified_name(q: &String) -> (r: (String, String))
    ensures
        r.0@ == contract_part(q@),
        r.1@ == function_part(q@),
{
    let s = q.as_str();
    let n = s.unicode_len();
    let mut first: usize = 0;
    while first < n && s.get_char(first) != ':'
        invariant
            n == q@.len(),
            s@ == q@,
            first <= n,
            forall|j: int| 0 <= j < first ==> q@[j] != ':',
        decreases n - first,
    {
        first = first + 1;
    }
    proof {
        lemma_first_colon(q@, first as int);
    }
    let mut after_last: usize = n;
    while after_last > 0 && s.get_char(after_last - 1) != ':'
        invariant
            n == q@.len(),
            s@ == q@,
            after_last <= n,
            forall|j: int| after_last <= j < n ==> q@[j] != ':',
        decreases after_last,
    {
        after_last = after_last - 1;
    }
    proof {
        lemma_last_colon(q@, after_last as int);
        lemma_colon_order(q@);
    }
    let contract = if after_last > 0 {
        s.substring_char(0, first).to_owned()
    } else {
        String::new()
    };
    let function = s.substring_char(after_last, n).to_owned();
    (contract, function)
}

/// A contract of the chaincode and the names of its functions.
pub struct ContractEntry {
    pub name: String,
    pub functions: Vec<String>,
}

/// What to do with an invocation.
pub enum Dispatch {
    /// Run function `function` of contract `contract` with `args` and the
    /// context, then complete with its outcome.
    Invoke { contract: usize, function: usize, args: Vec<String>, context: Context },
    /// Send this reply; nothing runs.
    Reply(ChaincodeMessage),
    /// The input could not be read: send an `ERROR`, then a `RESPONSE`.
    Reject(ChaincodeMessage, ChaincodeMessage),
}

/// The arguments of an invocation, when its payload is a chaincode input
/// with a first argument and every argument is UTF-8.
pub open spec fn readable_input(payload: Seq<u8>) -> bool {
    chaincode_input_from(payload) matches Some(input) && input.args.len() > 0 && forall|k: int|
        0 <= k < input.args.len() ==> valid_utf8(#[trigger] input.args[k])
}

/// The qualified name of a readable invocation.
pub open spec fn qualified_of(payload: Seq<u8>) -> Seq<char> {
    decode_utf8(chaincode_input_from(payload)->0.args[0])
}

/// Text of a `NOT_FOUND` response for a missing contract.
pub open spec fn missing_contract_text(c: Seq<char>, f: Seq<char>, chaincode: Seq<char>) -> Seq<char> {
    "Function "@ + f + " of contract "@ + c + " not found in chaincode "@ + chaincode
}

/// Text of a `NOT_FOUND` response for a missing function.
pub open spec fn missing_function_text(c: Seq<char>, f: Seq<char>, chaincode: Seq<char>) -> Seq<char> {
    "Function "@ + f + " not found in contract "@ + c + " from chaincode "@ + chaincode
}

/// Text of an `INTERNAL_SERVER_ERROR` response.
pub open spec fn failure_text(e: Seq<char>) -> Seq<char> {
    "An error occurred during the exection of the chaincode function: "@ + e
}

/// Why the input of an invocation cannot be read.
pub open spec fn unreadable_reason(payload: Seq<u8>) -> Seq<char> {
    match chaincode_input_from(payload) {
        None => "malformed chaincode input message"@,
        Some(input) => if input.args.len() == 0 {
            "no function name"@
        } else {
            "argument is not valid UTF-8"@
        },
    }
}

/// Text of the `ERROR` and `RESPONSE` sent for an unreadable input.
pub open spec fn unreadable_text(payload: Seq<u8>) -> Seq<char> {
    "Invalid chaincode input; "@ + unreadable_reason(payload)
}

/// Whether function `f` of contract `c` is declared.
pub open spec fn declared(contracts: Seq<ContractEntry>, c: Seq<char>, f: Seq<char>) -> bool {
    exists|i: int, j: int|
        0 <= i < contracts.len() && #[trigger] contracts[i].name@ == c && 0 <= j
            < contracts[i].functions@.len() && #[trigger] contracts[i].functions@[j]@ == f
}

/// Routes invocations to the functions of the declared contracts.
pub struct MessageHandler {
    pub contracts: Vec<ContractEntry>,
    pub chaincode_id: ChaincodeId,
}

impl MessageHandler {
    /// The handler of `contracts`, and the `REGISTER` message that must go
    /// first to the peer: it carries the encoded chaincode id and is built by
    /// `builder` with a fresh transaction id and proposal.
    pub fn new(builder: &mut MessageBuilder, chaincode_id: ChaincodeId, contracts: Vec<ContractEntry>) -> (r: (
        MessageHandler,
        Result<ChaincodeMessage, BuilderError>,
    ))
        ensures
            r.0.contracts == contracts,
            r.0.chaincode_id == chaincode_id,
            *final(builder) == *old(builder),
            r.1 matches Ok(m) ==> m@.message_type == REGISTER && m@.payload == chaincode_id@.bytes(),
            r.1 matches Ok(m) ==> exists|fresh: Seq<u8>, ts: Timestamp, sig: Seq<u8>|
                #![trigger sent_message(old(builder).transaction_builder, fresh, ts, REGISTER, chaincode_id@.bytes(), sig, m@)]
                fresh.len() == NONCE_LENGTH && signature_of(
                    old(builder).transaction_builder.signer.pkey@,
                    sent_proposal(old(builder).transaction_builder, fresh, ts).bytes(),
                ) == Some(sig) && sent_message(
                    old(builder).transaction_builder,
                    fresh,
                    ts,
                    REGISTER,
                    chaincode_id@.bytes(),
                    sig,
                    m@,
                ),
    {
        let register = builder.send(REGISTER, chaincode_id.encode());
        (MessageHandler { contracts, chaincode_id }, register)
    }

    fn find_contract(&self, name: &String) -> (r: Option<usize>)
        ensures
            r matches Some(i) ==> i < self.contracts@.len() && self.contracts@[i as int].name@
                == name@,
            r is None ==> forall|i: int|
                0 <= i < self.contracts@.len() ==> #[trigger] self.contracts@[i].name@ != name@,
    {
        let mut i: usize = 0;
        while i < self.contracts.len()
            invariant
                i <= self.contracts@.len(),
                forall|j: int| 0 <= j < i ==> #[trigger] self.contracts@[j].name@ != name@,
            decreases self.contracts@.len() - i,
        {
            if self.contracts[i].name == *name {
                return Some(i);
            }
            i = i + 1;
        }
        None
    }

    fn find_handler(&self, contract: &String, function: &String) -> (r: Option<(usize, usize)>)
        ensures
            r matches Some((i, j)) ==> i < self.contracts@.len() && self.contracts@[i as int].name@
                == contract@ && j < self.contracts@[i as int].functions@.len()
                && self.contracts@[i as int].functions@[j as int]@ == function@,
            r is None ==> !declared(self.contracts@, contract@, function@),
    {
        let mut i: usize = 0;
        while i < self.contracts.len()
            invariant
                i <= self.contracts@.len(),
                forall|a: int, b: int|
                    0 <= a < i && #[trigger] self.contracts@[a].name@ == contract@ && 0 <= b
                        < self.contracts@[a].functions@.len() ==> #[trigger] self.contracts@[a].functions@[b]@
                        != function@,
            decreases self.contracts@.len() - i,
        {
            if self.contracts[i].name == *contract {
                let functions = &self.contracts[i].functions;
                let mut j: usize = 0;
                while j < functions.len()
                    invariant
                        i < self.contracts@.len(),
                        self.contracts@[i as int].name@ == contract@,
                        functions == self.contracts@[i as int].functions,
                        j <= functions@.len(),
                        forall|k: int| 0 <= k < j ==> #[trigger] functions@[k]@ != function@,
                        forall|a: int, b: int|
                            0 <= a < i && #[trigger] self.contracts@[a].name@ == contract@ && 0 <= b
                                < self.contracts@[a].functions@.len()
                                ==> #[trigger] self.contracts@[a].functions@[b]@ != function@,
                    decreases functions@.len() - j,
                {
                    if functions[j] == *function {
                        return Some((i, j));
                    }
                    j = j + 1;
                }
            }
            i = i + 1;
        }
        None
    }

    fn read_arguments(input: &ChaincodeInput) -> (r: Option<Vec<String>>)
        ensures
            (forall|k: int| 0 <= k < input@.args.len() ==> valid_utf8(#[trigger] input@.args[k]))
                ==> (r matches Some(v) && v@.len() == input@.args.len() && forall|k: int|
                0 <= k < v@.len() ==> (#[trigger] v@[k])@ == decode_utf8(input@.args[k])),
            !(forall|k: int| 0 <= k < input@.args.len() ==> valid_utf8(#[trigger] input@.args[k]))
                ==> r is None,
    {
        let mut out: Vec<String> = Vec::new();
        let mut i: usize = 0;
        while i < input.args.len()
            invariant
                i <= input@.args.len(),
                input@.args.len() == input.args@.len(),
                out@.len() == i,
                forall|k: int| 0 <= k < i ==> valid_utf8(#[trigger] input@.args[k]),
                forall|k: int| 0 <= k < i ==> (#[trigger] out@[k])@ == decode_utf8(input@.args[k]),
            decreases input@.args.len() - i,
        {
            assert(input@.args[i as int] == input.args@[i as int]@);
            match utf8_text(input.args[i].as_slice()) {
                Some(s) => out.push(s),
                None => return None,
            }
            i = i + 1;
        }
        Some(out)
    }

    /// Decides what to do with an `INIT` or `TRANSACTION` message.
    pub fn dispatch(&self, builder: &mut MessageBuilder, message: ChaincodeMessage) -> (r: Dispatch)
        ensures
            !readable_input(message.payload@) ==> (r matches Dispatch::Reject(e, resp) && request_of(
                e@,
                message@,
                ERROR,
                encode_utf8(unreadable_text(message.payload@)),
            ) && request_of(
                resp@,
                message@,
                RESPONSE,
                encode_utf8(unreadable_text(message.payload@)),
            )),
            (readable_input(message.payload@) && declared(
                self.contracts@,
                contract_part(qualified_of(message.payload@)),
                function_part(qualified_of(message.payload@)),
            )) ==> r is Invoke,
            readable_input(message.payload@) ==> ({
                let q = qualified_of(message.payload@);
                let c = contract_part(q);
                let f = function_part(q);
                let input = chaincode_input_from(message.payload@)->0;
                match r {
                    Dispatch::Invoke { contract, function, args, context } => contract
                        < self.contracts@.len() && self.contracts@[contract as int].name@ == c
                        && function < self.contracts@[contract as int].functions@.len()
                        && self.contracts@[contract as int].functions@[function as int]@ == f
                        && context.message == message && args@.len() == input.args.len() - 1
                        && (forall|k: int|
                        0 <= k < args@.len() ==> (#[trigger] args@[k])@ == decode_utf8(
                            input.args[k + 1],
                        )) && *final(builder) == *old(builder),
                    Dispatch::Reply(m) => !declared(self.contracts@, c, f) && request_of(
                        m@,
                        message@,
                        COMPLETED,
                        (ResponseView {
                            status: NOT_FOUND,
                            message: if exists|i: int|
                                0 <= i < self.contracts@.len() && #[trigger] self.contracts@[i].name@
                                    == c {
                                missing_function_text(c, f, self.chaincode_id.name@)
                            } else {
                                missing_contract_text(c, f, self.chaincode_id.name@)
                            },
                            payload: seq![],
                        }).bytes(),
                    ),
                    Dispatch::Reject(..) => false,
                }
            }),
    {
        let input = match ChaincodeInput::decode(message.payload.as_slice()) {
            Some(input) => input,
            None => {
                let reason = String::from_str("malformed chaincode input message");
                return self.reject(builder, message, reason);
            },
        };
        if input.args.len() == 0 {
            let reason = String::from_str("no function name");
            return self.reject(builder, message, reason);
        }
        let args = match Self::read_arguments(&input) {
            Some(args) => args,
            None => {
                let reason = String::from_str("argument is not valid UTF-8");
                return self.reject(builder, message, reason);
            },
        };
        let (contract, function) = split_qualified_name(&args[0]);
        let ghost view_args = args@;
        let mut rest: Vec<String> = Vec::new();
        let mut k: usize = 1;
        while k < args.len()
            invariant
                1 <= k <= args@.len(),
                args@ == view_args,
                rest@.len() == k - 1,
                forall|j: int| 0 <= j < k - 1 ==> (#[trigger] rest@[j])@ == view_args[j + 1]@,
            decreases args@.len() - k,
        {
            rest.push(args[k].clone());
            k = k + 1;
        }
        match self.find_handler(&contract, &function) {
            Some((c, f)) => Dispatch::Invoke {
                contract: c,
                function: f,
                args: rest,
                context: Context::new(message),
            },
            None => {
                let text = match self.find_contract(&contract) {
                    Some(_) => String::from_str("Function ").concat(function.as_str()).concat(
                        " not found in contract ",
                    ).concat(contract.as_str()).concat(" from chaincode ").concat(
                        self.chaincode_id.name.as_str(),
                    ),
                    None => String::from_str("Function ").concat(function.as_str()).concat(
                        " of contract ",
                    ).concat(contract.as_str()).concat(" not found in chaincode ").concat(
                        self.chaincode_id.name.as_str(),
                    ),
                };
                Dispatch::Reply(self.not_found(builder, &message, text))
            },
        }
    }

    fn not_found(&self, builder: &mut MessageBuilder, message: &ChaincodeMessage, text: String) -> (r:
        ChaincodeMessage)
        ensures
            request_of(
                r@,
                message@,
                COMPLETED,
                (ResponseView { status: NOT_FOUND, message: text@, payload: seq![] }).bytes(),
            ),
    {
        let response = Response { status: NOT_FOUND, message: text, payload: Vec::new() };
        proof {
            assert(response@.payload =~= Seq::<u8>::empty());
        }
        builder.respond(COMPLETED, response.encode(), message)
    }

    fn reject(&self, builder: &mut MessageBuilder, message: ChaincodeMessage, reason: String) -> (r:
        Dispatch)
        ensures
            r matches Dispatch::Reject(e, resp) && request_of(
                e@,
                message@,
                ERROR,
                encode_utf8("Invalid chaincode input; "@ + reason@),
            ) && request_of(resp@, message@, RESPONSE, encode_utf8("Invalid chaincode input; "@ + reason@)),
    {
        let text = String::from_str("Invalid chaincode input; ").concat(reason.as_str());
        let error = builder.respond(ERROR, crate::crypto::text_bytes(&text), &message);
        let response = builder.respond(RESPONSE, crate::crypto::text_bytes(&text), &message);
        Dispatch::Reject(error, response)
    }

    /// The `COMPLETED` reply of an invocation, given what its function returned.
    pub fn complete(
        &self,
        builder: &mut MessageBuilder,
        context: &Context,
        outcome: Result<String, String>,
    ) -> (r: ChaincodeMessage)
        ensures
            request_of(
                r@,
                context.message@,
                COMPLETED,
                (match outcome {
                    Ok(m) => ResponseView { status: SUCCESS, message: m@, payload: seq![] },
                    Err(e) => ResponseView {
                        status: INTERNAL_SERVER_ERROR,
                        message: failure_text(e@),
                        payload: seq![],
                    },
                }).bytes(),
            ),
            cleared(old(builder).transaction_builder, final(builder).transaction_builder),
    {
        let response = match outcome {
            Ok(message) => Response { status: SUCCESS, message, payload: Vec::new() },
            Err(e) => Response {
                status: INTERNAL_SERVER_ERROR,
                message: String::from_str(
                    "An error occurred during the exection of the chaincode function: ",
                ).concat(e.as_str()),
                payload: Vec::new(),
            },
        };
        proof {
            assert(response@.payload =~= Seq::<u8>::empty());
        }
        builder.respond(COMPLETED, response.encode(), &context.message)
    }
}

} // verus!
