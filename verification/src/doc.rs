use vstd::prelude::*;

verus! {

/// A scalar value of the structured documents this library emits:
/// identifiers are strings, amounts are integers in the smallest
/// currency unit, and absent optional fields are explicit nulls.
#[derive(Clone, Debug, PartialEq, Eq)]
pub enum Prim {
    Null,
    Bool(bool),
    UInt(u64),
    Str(String),
}

/// Mathematical model of a `Prim`.
pub enum PrimV {
    Null,
    Bool(bool),
    UInt(u64),
    Str(Seq<char>),
}

impl View for Prim {
    type V = PrimV;

    open spec fn view(&self) -> PrimV {
        match self {
            Prim::Null => PrimV::Null,
            Prim::Bool(b) => PrimV::Bool(*b),
            Prim::UInt(n) => PrimV::UInt(*n),
            Prim::Str(s) => PrimV::Str(s@),
        }
    }
}

/// A flat document: an ordered list of key/value pairs whose values
/// are scalars. The canonical event document has this shape.
#[derive(Debug, PartialEq, Eq)]
pub struct FlatDoc {
    pub entries: Vec<(String, Prim)>,
}

impl View for FlatDoc {
    type V = Seq<(Seq<char>, PrimV)>;

    open spec fn view(&self) -> Seq<(Seq<char>, PrimV)> {
        self.entries@.map_values(|p: (String, Prim)| (p.0@, p.1@))
    }
}

impl FlatDoc {
    pub fn new() -> (r: FlatDoc)
        ensures
            r@ == Seq::<(Seq<char>, PrimV)>::empty(),
    {
        let r = FlatDoc { entries: Vec::new() };
        proof {
            assert(r@ =~= Seq::<(Seq<char>, PrimV)>::empty());
        }
        r
    }

    pub fn push(&mut self, key: &str, value: Prim)
        ensures
            final(self)@ == old(self)@.push((key@, value@)),
    {
        self.entries.push((key.to_owned(), value));
        proof {
            assert(self@ =~= old(self)@.push((key@, value@)));
        }
    }
}

/// A value of a top-level command document: a scalar, an array of
/// flat documents, or one nested flat document.
#[derive(Debug, PartialEq, Eq)]
pub enum DocNode {
    Prim(Prim),
    Arr(Vec<FlatDoc>),
    Obj(FlatDoc),
}

/// Mathematical model of a `DocNode`.
pub enum DocNodeV {
    Prim(PrimV),
    Arr(Seq<Seq<(Seq<char>, PrimV)>>),
    Obj(Seq<(Seq<char>, PrimV)>),
}

impl View for DocNode {
    type V = DocNodeV;

    open spec fn view(&self) -> DocNodeV {
        match self {
            DocNode::Prim(p) => DocNodeV::Prim(p@),
            DocNode::Arr(items) => DocNodeV::Arr(items@.map_values(|d: FlatDoc| d@)),
            DocNode::Obj(d) => DocNodeV::Obj(d@),
        }
    }
}

/// A top-level command document: ordered key/value pairs whose values
/// may nest one level (arrays of flat documents, one nested object).
#[derive(Debug, PartialEq, Eq)]
pub struct Doc {
    pub entries: Vec<(String, DocNode)>,
}

impl View for Doc {
    type V = Seq<(Seq<char>, DocNodeV)>;

    open spec fn view(&self) -> Seq<(Seq<char>, DocNodeV)> {
        self.entries@.map_values(|p: (String, DocNode)| (p.0@, p.1@))
    }
}

impl Doc {
    pub fn new() -> (r: Doc)
        ensures
            r@ == Seq::<(Seq<char>, DocNodeV)>::empty(),
    {
        let r = Doc { entries: Vec::new() };
        proof {
            assert(r@ =~= Seq::<(Seq<char>, DocNodeV)>::empty());
        }
        r
    }

    pub fn push(&mut self, key: &str, value: DocNode)
        ensures
            final(self)@ == old(self)@.push((key@, value@)),
    {
        self.entries.push((key.to_owned(), value));
        proof {
            assert(self@ =~= old(self)@.push((key@, value@)));
        }
    }
}

/// The value stored under `key` in a flat document, if any; the first
/// entry with that key wins, as it does when the document is read back
/// as a JSON object.
pub open spec fn doc_lookup(doc: Seq<(Seq<char>, PrimV)>, key: Seq<char>) -> Option<PrimV>
    decreases doc.len(),
{
    if doc.len() == 0 {
        None
    } else if doc[0].0 == key {
        Some(doc[0].1)
    } else {
        doc_lookup(doc.drop_first(), key)
    }
}

} // verus!
