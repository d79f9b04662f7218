use vstd::prelude::*;

verus! {

/// One exported symbol of a PE image; unnamed exports have no name.
pub struct Export {
    pub name: Option<std::string::String>,
}

/// One imported symbol: the module it comes from and its name.
pub struct Import {
    pub dll: std::string::String,
    pub name: std::string::String,
}

/// What this layer keeps of a parsed PE image.
pub struct Document {
    pub exports: std::vec::Vec<Export>,
    pub imports: std::vec::Vec<Import>,
}

/// The export names of the PE image in `data`, and its imports as
/// (module, symbol) pairs, or `None` where the image is malformed.
pub uninterp spec fn pe_of(data: Seq<u8>) -> Option<
    (Seq<Option<Seq<char>>>, Seq<(Seq<char>, Seq<char>)>),
>;

#[verifier::external_type_specification]
#[verifier::external_body]
pub struct ExPeError(goblin::error::Error);

/// Relies on goblin::pe::PE::parse: it reads the image from the bytes alone;
/// the exports and imports it lists are kept as owned text, in its order.
#[verifier::external_body]
pub(crate) fn parse_pe(data: &[u8]) -> (r: Result<Document, goblin::error::Error>)
    ensures
        r is Ok <==> pe_of(data@) is Some,
        r matches Ok(d) ==> pe_of(data@) == Some((d.exports_model(), d.imports_model())),
{
    goblin::pe::PE::parse(data).map(|pe| Document {
        exports: pe.exports.iter().map(|e| Export { name: e.name.map(|n| n.to_string()) }).collect(),
        imports: pe.imports.iter().map(|i| Import { dll: i.dll.to_string(), name: i.name.to_string() }).collect(),
    })
}

impl Document {
    pub open spec fn exports_model(&self) -> Seq<Option<Seq<char>>> {
        self.exports@.map_values(
            |e: Export|
                match e.name {
                    Some(n) => Some(n@),
                    None => None,
                },
        )
    }

    pub open spec fn imports_model(&self) -> Seq<(Seq<char>, Seq<char>)> {
        self.imports@.map_values(|i: Import| (i.dll@, i.name@))
    }
}

/// The text that stands for an export without a name.
pub open spec fn none_name() -> Seq<char> {
    seq!['<', 'n', 'o', 'n', 'e', '>']
}

/// One text per export, in order: its name, or `none_name()`.
pub open spec fn export_names(exports: Seq<Option<Seq<char>>>) -> Seq<Seq<char>> {
    exports.map_values(
        |e: Option<Seq<char>>|
            match e {
                Some(n) => n,
                None => none_name(),
            },
    )
}

/// Two texts per import, in order: its module, then its symbol.
pub open spec fn import_names(imports: Seq<(Seq<char>, Seq<char>)>) -> Seq<Seq<char>> {
    Seq::new(
        2 * imports.len(),
        |i: int|
            if i % 2 == 0 {
                imports[i / 2].0
            } else {
                imports[i / 2].1
            },
    )
}

/// Why parsing gave no document.
#[derive(Clone, Copy, Debug, PartialEq, Eq, Structural)]
pub enum ParseError {
    /// The byte view does not lie inside a live block.
    BadView,
    /// The bytes are not a well-formed PE image.
    Malformed,
    /// Every document handle has been handed out.
    Exhausted,
}

/// Why a query gave no list.
#[derive(Clone, Copy, Debug, PartialEq, Eq, Structural)]
pub enum QueryError {
    /// The document handle was never handed out, or was destroyed.
    StaleHandle,
    /// Too few text or list handles are left.
    Exhausted,
}

} // verus!
