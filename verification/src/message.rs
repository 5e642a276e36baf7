//! Bus messages as the router sees them, and their normal form.

use vstd::prelude::*;

verus! {

/// The class of a bus message.
#[derive(Clone, Copy, Debug, PartialEq, Eq, Structural)]
pub enum MessageKind {
    MethodCall,
    MethodReturn,
    Error,
    Signal,
}

/// One incoming bus message, reduced to what routing reads: its class, the
/// object path and member of its header, and the fields of its body, each
/// already rendered as text. `body` is `None` where the message has no body
/// or the body does not decode as a structure.
#[derive(Debug)]
pub struct BusMessage {
    pub kind: MessageKind,
    pub path: Option<String>,
    pub member: Option<String>,
    pub body: Option<Vec<String>>,
}

/// A signal ready for matching.
#[derive(Debug)]
pub struct NormalizedSignal {
    pub path: String,
    pub member: String,
    pub data: String,
}

/// A signal that lacks a header field every signal must carry.
#[derive(Clone, Copy, Debug, PartialEq, Eq, Structural)]
pub enum MessageShapeError {
    MissingPath,
    MissingMember,
}

/// A bus message with every text as a sequence of characters.
pub struct Message {
    pub kind: MessageKind,
    pub path: Option<Seq<char>>,
    pub member: Option<Seq<char>>,
    pub body: Option<Seq<Seq<char>>>,
}

/// A normalized signal with every text as a sequence of characters.
pub struct Signal {
    pub path: Seq<char>,
    pub member: Seq<char>,
    pub data: Seq<char>,
}

impl View for BusMessage {
    type V = Message;

    open spec fn view(&self) -> Message {
        Message {
            kind: self.kind,
            path: match self.path {
                Some(p) => Some(p@),
                None => None,
            },
            member: match self.member {
                Some(m) => Some(m@),
                None => None,
            },
            body: match self.body {
                Some(fields) => Some(fields.deep_view()),
                None => None,
            },
        }
    }
}

impl View for NormalizedSignal {
    type V = Signal;

    open spec fn view(&self) -> Signal {
        Signal { path: self.path@, member: self.member@, data: self.data@ }
    }
}

/// What stands between two rendered fields: a comma and a line feed.
pub open spec fn separator() -> Seq<char> {
    seq![',', '\n']
}

/// The fields in their order, with the separator between neighbours.
pub open spec fn joined(fields: Seq<Seq<char>>) -> Seq<char>
    decreases fields.len(),
{
    if fields.len() == 0 {
        Seq::empty()
    } else if fields.len() == 1 {
        fields[0]
    } else {
        joined(fields.drop_last()) + separator() + fields.last()
    }
}

/// The data text of a body: its joined fields, or nothing where it is absent.
pub open spec fn rendered(body: Option<Seq<Seq<char>>>) -> Seq<char> {
    match body {
        Some(fields) => joined(fields),
        None => Seq::empty(),
    }
}

/// The normal form of a message: nothing for a message that is no signal, an
/// error for a signal without path or member (the path is looked at first),
/// else the signal with its data text.
pub open spec fn normalized(msg: Message) -> Result<Option<Signal>, MessageShapeError> {
    if msg.kind != MessageKind::Signal {
        Ok(None)
    } else if msg.path is None {
        Err(MessageShapeError::MissingPath)
    } else if msg.member is None {
        Err(MessageShapeError::MissingMember)
    } else {
        Ok(
            Some(
                Signal {
                    path: msg.path->Some_0,
                    member: msg.member->Some_0,
                    data: rendered(msg.body),
                },
            ),
        )
    }
}

/// Joins rendered fields with `",\n"`.
pub fn join_fields(fields: &Vec<String>) -> (text: String)
    ensures
        text@ == joined(fields.deep_view()),
{
    let ghost all = fields.deep_view();
    let mut text = String::new();
    let mut i: usize = 0;
    while i < fields.len()
        invariant
            i <= fields.len(),
            all == fields.deep_view(),
            text@ == joined(all.take(i as int)),
        decreases fields.len() - i,
    {
        proof {
            reveal_strlit(",\n");
            assert(all.take(i + 1).drop_last() =~= all.take(i as int));
        }
        if i > 0 {
            text.append(",\n");
        }
        text.append(fields[i].as_str());
        i += 1;
    }
    proof {
        assert(all.take(i as int) =~= all);
    }
    text
}

/// Normalizes one message. See [`normalized`].
pub fn parse_signal(msg: &BusMessage) -> (r: Result<Option<NormalizedSignal>, MessageShapeError>)
    ensures
        match r {
            Ok(Some(signal)) => normalized(msg@) == Ok::<Option<Signal>, MessageShapeError>(
                Some(signal@),
            ),
            Ok(None) => normalized(msg@) == Ok::<Option<Signal>, MessageShapeError>(None),
            Err(e) => normalized(msg@) == Err::<Option<Signal>, MessageShapeError>(e),
        },
{
    match msg.kind {
        MessageKind::Signal => {},
        _ => { return Ok(None); },
    }
    let path = match &msg.path {
        Some(p) => p.clone(),
        None => { return Err(MessageShapeError::MissingPath); },
    };
    let member = match &msg.member {
        Some(m) => m.clone(),
        None => { return Err(MessageShapeError::MissingMember); },
    };
    let data = match &msg.body {
        Some(fields) => join_fields(fields),
        None => String::new(),
    };
    Ok(Some(NormalizedSignal { path, member, data }))
}

/// The line that reports a signal: its path and member, and below them its
/// data where it has any.
pub open spec fn report_text(signal: Signal) -> Seq<char> {
    let head = "Path:"@ + signal.path + " Member:"@ + signal.member;
    if signal.data.len() == 0 {
        head
    } else {
        head + "\n"@ + signal.data
    }
}

/// Renders the report of a signal. See [`report_text`].
pub fn describe_signal(signal: &NormalizedSignal) -> (line: String)
    ensures
        line@ == report_text(signal@),
{
    let mut line = String::from_str("Path:");
    line.append(signal.path.as_str());
    line.append(" Member:");
    line.append(signal.member.as_str());
    if !signal.data.as_str().is_empty() {
        line.append("\n");
        line.append(signal.data.as_str());
    }
    line
}

} // verus!
