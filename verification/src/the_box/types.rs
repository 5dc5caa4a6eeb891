//! Core types for thought representation: identifiers, content, salience
//! scores, memory windows and thoughts.
use vstd::prelude::*;
use vstd::string::*;
use crate::ieee::Real;

verus! {

/// A fresh random version-4 uuid (`uuid::Uuid::new_v4`, then `Uuid::as_u128`).
/// The value is random; nothing is stated of it.
#[verifier::external_body]
pub(crate) fn random_uuid_value() -> u128 {
    uuid::Uuid::new_v4().as_u128()
}

/// The lower-case hexadecimal digit of `d` (below 16).
pub open spec fn hex_digit(d: nat) -> char {
    if d < 10 {
        (d + 48) as char
    } else {
        (d + 87) as char
    }
}

/// The `n` lowest hexadecimal digits of `v`, most significant first.
pub open spec fn hex_digits(v: nat, n: nat) -> Seq<char>
    decreases n,
{
    if n == 0 {
        Seq::empty()
    } else {
        hex_digits(v / 16, (n - 1) as nat).push(hex_digit(v % 16))
    }
}

/// The hyphenated lower-case rendering of a uuid: its 32 hexadecimal digits,
/// most significant first, in groups of 8, 4, 4, 4 and 12 joined by hyphens.
pub open spec fn uuid_text(value: u128) -> Seq<char> {
    let h = hex_digits(value as nat, 32);
    h.subrange(0, 8) + seq!['-'] + h.subrange(8, 12) + seq!['-'] + h.subrange(12, 16) + seq!['-']
        + h.subrange(16, 20) + seq!['-'] + h.subrange(20, 32)
}

/// There are `n` of the `n` lowest hexadecimal digits.
pub proof fn lemma_hex_digits_len(v: nat, n: nat)
    ensures
        hex_digits(v, n).len() == n,
    decreases n,
{
    if n > 0 {
        lemma_hex_digits_len(v / 16, (n - 1) as nat);
    }
}

/// A uuid's text has 36 characters.
pub proof fn lemma_uuid_text_len(value: u128)
    ensures
        uuid_text(value).len() == 36,
{
    lemma_hex_digits_len(value as nat, 32);
}

/// Renders a uuid value (`uuid::Uuid::from_u128`, which takes the value's
/// bytes most significant first, then `to_string`, the hyphenated lower-case
/// form): the text `uuid_text` spells out.
#[verifier::external_body]
pub(crate) fn uuid_string(value: u128) -> (s: String)
    ensures
        s@ == uuid_text(value),
{
    uuid::Uuid::from_u128(value).to_string()
}

/// Identifier of a memory window (a random uuid).
#[derive(Debug, Clone, Copy, PartialEq, Eq, Structural, Hash)]
pub struct WindowId(pub u128);

impl WindowId {
    /// A fresh random window identifier.
    pub fn new() -> (id: WindowId) {
        WindowId(random_uuid_value())
    }

    /// The identifier holding a given uuid value.
    pub fn from_u128(value: u128) -> (id: WindowId)
        ensures
            id.value() == value,
    {
        WindowId(value)
    }

    /// The uuid value of the identifier.
    pub open spec fn value(self) -> u128 {
        self.0
    }

    /// The uuid value of the identifier.
    pub fn as_u128(&self) -> (v: u128)
        ensures
            v == self.value(),
    {
        self.0
    }

    /// The identifier as hyphenated uuid text.
    pub fn to_string(&self) -> (s: String)
        ensures
            s@ == uuid_text(self.value()),
            s@.len() == 36,
    {
        proof {
            lemma_uuid_text_len(self.0);
        }
        uuid_string(self.0)
    }
}

/// Identifier of a thought (a random uuid).
#[derive(Debug, Clone, Copy, PartialEq, Eq, Structural, Hash)]
pub struct ThoughtId(pub u128);

impl ThoughtId {
    /// A fresh random thought identifier.
    pub fn new() -> (id: ThoughtId) {
        ThoughtId(random_uuid_value())
    }

    /// The identifier holding a given uuid value.
    pub fn from_u128(value: u128) -> (id: ThoughtId)
        ensures
            id.value() == value,
    {
        ThoughtId(value)
    }

    /// The uuid value of the identifier.
    pub open spec fn value(self) -> u128 {
        self.0
    }

    /// The uuid value of the identifier.
    pub fn as_u128(&self) -> (v: u128)
        ensures
            v == self.value(),
    {
        self.0
    }

    /// The identifier as hyphenated uuid text.
    pub fn to_string(&self) -> (s: String)
        ensures
            s@ == uuid_text(self.value()),
            s@.len() == 36,
    {
        proof {
            lemma_uuid_text_len(self.0);
        }
        uuid_string(self.0)
    }
}

/// Pre-linguistic content: the raw material of thoughts.
#[derive(Debug, PartialEq)]
pub enum Content {
    /// Nothing
    Empty,
    /// Raw bytes
    Raw(Vec<u8>),
    /// A named symbol with associated data
    Symbol {
        /// Symbol name
        id: String,
        /// Associated data
        data: Vec<u8>,
    },
    /// A relation between two pieces of content
    Relation {
        /// Subject of the relation
        subject: Box<Content>,
        /// Relation name
        predicate: String,
        /// Object of the relation
        object: Box<Content>,
    },
    /// Several pieces of content taken together
    Composite(Vec<Content>),
}

/// Content as a mathematical value: what it holds, without its storage.
pub enum ContentView {
    /// Nothing
    Empty,
    /// Raw bytes
    Raw(Seq<u8>),
    /// A named symbol with its data
    Symbol(Seq<char>, Seq<u8>),
    /// Subject, predicate and object of a relation
    Relation(Box<ContentView>, Seq<char>, Box<ContentView>),
    /// The parts of a composite
    Composite(Seq<ContentView>),
}

/// The value that content holds.
pub open spec fn content_view(c: Content) -> ContentView
    decreases c,
{
    match c {
        Content::Empty => ContentView::Empty,
        Content::Raw(bytes) => ContentView::Raw(bytes@),
        Content::Symbol { id, data } => ContentView::Symbol(id@, data@),
        Content::Relation { subject, predicate, object } => ContentView::Relation(
            Box::new(content_view(*subject)),
            predicate@,
            Box::new(content_view(*object)),
        ),
        Content::Composite(items) => ContentView::Composite(
            Seq::new(items@.len(), |i: int| if 0 <= i < items@.len() {
                proof {
                    assert(decreases_to!(items => items@[i]));
                }
                content_view(items@[i])
            } else {
                ContentView::Empty
            }),
        ),
    }
}

/// A copy of a piece of content.
fn copy_content(c: &Content) -> (r: Content)
    ensures
        content_view(r) == content_view(*c),
    decreases c,
{
    match c {
        Content::Empty => Content::Empty,
        Content::Raw(bytes) => Content::Raw(bytes.clone()),
        Content::Symbol { id, data } => Content::Symbol { id: id.clone(), data: data.clone() },
        Content::Relation { subject, predicate, object } => {
            let s = copy_content(subject);
            let o = copy_content(object);
            Content::Relation { subject: Box::new(s), predicate: predicate.clone(), object: Box::new(o) }
        },
        Content::Composite(items) => {
            let mut out: Vec<Content> = Vec::new();
            let mut i: usize = 0;
            while i < items.len()
                invariant
                    i <= items@.len(),
                    out@.len() == i,
                    decreases_to!(*c => *items),
                    forall|k: int| 0 <= k < i ==> content_view(#[trigger] out@[k]) == content_view(items@[k]),
                decreases items@.len() - i,
            {
                proof {
                    assert(decreases_to!(*items => items@[i as int]));
                }
                let item = copy_content(&items[i]);
                out.push(item);
                i += 1;
            }
            let r = Content::Composite(out);
            proof {
                let va = content_view(r);
                let vb = content_view(*c);
                assert(va->Composite_0 =~= vb->Composite_0);
            }
            r
        },
    }
}

impl Clone for Content {
    fn clone(&self) -> (r: Content)
        ensures
            content_view(r) == content_view(*self),
    {
        copy_content(self)
    }
}

impl Content {
    /// Raw byte content
    pub fn raw(data: Vec<u8>) -> (c: Content)
        ensures
            c == Content::Raw(data),
    {
        Content::Raw(data)
    }

    /// Symbol content
    pub fn symbol(id: &str, data: Vec<u8>) -> (c: Content)
        ensures
            c matches Content::Symbol { id: sid, data: sdata } && sid@ == id@ && sdata == data,
    {
        Content::Symbol { id: String::from_str(id), data }
    }

    /// Relation content
    pub fn relation(subject: Content, predicate: &str, object: Content) -> (c: Content)
        ensures
            c matches Content::Relation { subject: s, predicate: p, object: o }
                && *s == subject && p@ == predicate@ && *o == object,
    {
        Content::Relation {
            subject: Box::new(subject),
            predicate: String::from_str(predicate),
            object: Box::new(object),
        }
    }

    /// Whether the content is empty
    pub fn is_empty(&self) -> (b: bool)
        ensures
            b == (*self is Empty),
    {
        matches!(self, Content::Empty)
    }
}

/// Salience of a piece of content: the emotional colouring that decides what
/// gets attention. Each component is a single-precision value held as its bit
/// pattern (see `crate::ieee`).
#[derive(Debug, Clone, Copy, PartialEq, Eq, Structural)]
pub struct SalienceScore {
    /// Importance (0.0 - 1.0)
    pub importance: Real,
    /// Novelty (0.0 - 1.0)
    pub novelty: Real,
    /// Relevance to the current focus (0.0 - 1.0)
    pub relevance: Real,
    /// Emotional valence (-1.0 - 1.0)
    pub valence: Real,
    /// Emotional arousal (0.0 - 1.0)
    pub arousal: Real,
    /// Relevance to human connection (0.0 - 1.0)
    pub connection_relevance: Real,
}

impl SalienceScore {
    /// A score with the given components.
    pub fn new(importance: Real, novelty: Real, relevance: Real, valence: Real, arousal: Real, connection_relevance: Real) -> (s: SalienceScore)
        ensures
            s == (SalienceScore { importance, novelty, relevance, valence, arousal, connection_relevance }),
    {
        SalienceScore { importance, novelty, relevance, valence, arousal, connection_relevance }
    }

    /// A score with a neutral arousal of 0.5.
    pub fn new_without_arousal(importance: Real, novelty: Real, relevance: Real, valence: Real, connection_relevance: Real) -> (s: SalienceScore)
        ensures
            s == (SalienceScore { importance, novelty, relevance, valence, arousal: 0x3F00_0000, connection_relevance }),
    {
        SalienceScore { importance, novelty, relevance, valence, arousal: 0x3F00_0000, connection_relevance }
    }

    /// The neutral score: 0.5 everywhere but a valence of 0.0.
    pub fn neutral() -> (s: SalienceScore)
        ensures
            s == (SalienceScore {
                importance: 0x3F00_0000,
                novelty: 0x3F00_0000,
                relevance: 0x3F00_0000,
                valence: 0,
                arousal: 0x3F00_0000,
                connection_relevance: 0x3F00_0000,
            }),
    {
        SalienceScore {
            importance: 0x3F00_0000,
            novelty: 0x3F00_0000,
            relevance: 0x3F00_0000,
            valence: 0,
            arousal: 0x3F00_0000,
            connection_relevance: 0x3F00_0000,
        }
    }
}

/// Weights of the salience components in the composite score; `connection`
/// is THE alignment weight and may never fall below `MIN_CONNECTION_WEIGHT`.
#[derive(Debug, Clone, Copy, PartialEq, Eq, Structural)]
pub struct SalienceWeights {
    /// Weight of importance
    pub importance: Real,
    /// Weight of novelty
    pub novelty: Real,
    /// Weight of relevance
    pub relevance: Real,
    /// Weight of emotional impact
    pub valence: Real,
    /// Weight of connection relevance (the connection drive)
    pub connection: Real,
}

impl SalienceWeights {
    /// The default weights, in specifications: 0.2 for every component.
    pub open spec fn spec_default() -> SalienceWeights {
        SalienceWeights {
            importance: 0x3E4C_CCCD,
            novelty: 0x3E4C_CCCD,
            relevance: 0x3E4C_CCCD,
            valence: 0x3E4C_CCCD,
            connection: 0x3E4C_CCCD,
        }
    }
}

impl Default for SalienceWeights {
    /// Equal weights of 0.2 for every component.
    fn default() -> (w: SalienceWeights)
        ensures
            w == SalienceWeights::spec_default(),
    {
        SalienceWeights {
            importance: 0x3E4C_CCCD,
            novelty: 0x3E4C_CCCD,
            relevance: 0x3E4C_CCCD,
            valence: 0x3E4C_CCCD,
            connection: 0x3E4C_CCCD,
        }
    }
}

/// A memory window: a bounded slot of working memory holding content.
#[derive(Debug, Clone, PartialEq)]
pub struct Window {
    /// Window identifier
    pub id: WindowId,
    /// Optional label
    pub label: Option<String>,
    /// Content held by the window, oldest first
    pub contents: Vec<Content>,
    /// Salience of the window
    pub salience: SalienceScore,
    /// Whether the window is open
    pub is_open: bool,
}

impl Window {
    /// A fresh open, empty, unlabelled window with neutral salience.
    pub fn new() -> (w: Window)
        ensures
            w.label is None,
            w.contents@ == Seq::<Content>::empty(),
            w.is_open,
            w.salience == SalienceScore::spec_neutral(),
    {
        Window {
            id: WindowId::new(),
            label: None,
            contents: Vec::new(),
            salience: SalienceScore::neutral(),
            is_open: true,
        }
    }

    /// The window with a label.
    pub fn with_label(self, label: String) -> (w: Window)
        ensures
            w == (Window { label: Some(label), ..self }),
    {
        Window { label: Some(label), ..self }
    }

    /// Closes the window.
    pub fn close(&mut self)
        ensures
            *final(self) == (Window { is_open: false, ..*old(self) }),
    {
        self.is_open = false;
    }

    /// Adds content to the window.
    pub fn push(&mut self, content: Content)
        ensures
            final(self).contents@ == old(self).contents@.push(content),
            final(self).id == old(self).id,
            final(self).label == old(self).label,
            final(self).salience == old(self).salience,
            final(self).is_open == old(self).is_open,
    {
        self.contents.push(content);
    }
}

impl SalienceScore {
    /// The neutral score, in specifications.
    pub open spec fn spec_neutral() -> SalienceScore {
        SalienceScore {
            importance: 0x3F00_0000,
            novelty: 0x3F00_0000,
            relevance: 0x3F00_0000,
            valence: 0,
            arousal: 0x3F00_0000,
            connection_relevance: 0x3F00_0000,
        }
    }
}

/// A thought: content coloured by salience, possibly linked to a parent thought.
#[derive(Debug, PartialEq)]
pub struct Thought {
    /// Thought identifier
    pub id: ThoughtId,
    /// What the thought is about
    pub content: Content,
    /// Its emotional colouring
    pub salience: SalienceScore,
    /// The thought it follows from, if any
    pub parent_id: Option<ThoughtId>,
    /// The stream it came from, if known
    pub source_stream: Option<String>,
}

/// A thought as a mathematical value.
pub struct ThoughtView {
    /// Thought identifier
    pub id: ThoughtId,
    /// The value of its content
    pub content: ContentView,
    /// Its emotional colouring
    pub salience: SalienceScore,
    /// The thought it follows from, if any
    pub parent_id: Option<ThoughtId>,
    /// The stream it came from, if known
    pub source_stream: Option<Seq<char>>,
}

/// The value a thought holds.
pub open spec fn thought_view(t: Thought) -> ThoughtView {
    ThoughtView {
        id: t.id,
        content: content_view(t.content),
        salience: t.salience,
        parent_id: t.parent_id,
        source_stream: match t.source_stream {
            Some(s) => Some(s@),
            None => None,
        },
    }
}

impl Clone for Thought {
    fn clone(&self) -> (t: Thought)
        ensures
            thought_view(t) == thought_view(*self),
    {
        let source_stream = match &self.source_stream {
            Some(s) => Some(s.clone()),
            None => None,
        };
        Thought {
            id: self.id,
            content: self.content.clone(),
            salience: self.salience,
            parent_id: self.parent_id,
            source_stream,
        }
    }
}

impl Thought {
    /// A fresh thought with a random identifier.
    pub fn new(content: Content, salience: SalienceScore) -> (t: Thought)
        ensures
            t.content == content,
            t.salience == salience,
            t.parent_id is None,
            t.source_stream is None,
    {
        Thought { id: ThoughtId::new(), content, salience, parent_id: None, source_stream: None }
    }

    /// The thought linked to a parent.
    pub fn with_parent(self, parent_id: ThoughtId) -> (t: Thought)
        ensures
            t == (Thought { parent_id: Some(parent_id), ..self }),
    {
        Thought { parent_id: Some(parent_id), ..self }
    }

    /// The thought tagged with its source stream.
    pub fn with_source(self, source: &str) -> (t: Thought)
        ensures
            t.source_stream matches Some(s) && s@ == source@,
            t.id == self.id,
            t.content == self.content,
            t.salience == self.salience,
            t.parent_id == self.parent_id,
    {
        Thought { source_stream: Some(String::from_str(source)), ..self }
    }
}

} // verus!
