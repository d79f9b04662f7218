use vstd::prelude::*;
use vstd::string::StringExecFns;

use crate::document::{
    export_names, import_names, none_name, parse_pe, pe_of, Document, ParseError, QueryError,
};
use crate::ffi::{IntoFfi, IntoNative, Slice, String, Vec};
use crate::heap::{Box, Heap};
use crate::memory::Memory;

verus! {

/// Everything the native side owns on the host's behalf: raw memory, parsed
/// documents, and the texts and text lists that queries hand out.
pub struct Native {
    pub memory: Memory,
    pub documents: Heap<Document>,
    pub texts: Heap<std::string::String>,
    pub lists: Heap<std::vec::Vec<String>>,
}

/// `after` extends `before` by one owned text per entry of `names`, in order,
/// and `list` holds, in the same order, the handles of those texts.
pub open spec fn published(
    before: Heap<std::string::String>,
    after: Heap<std::string::String>,
    names: Seq<Seq<char>>,
    list: Seq<String>,
) -> bool {
    &&& after@.len() == before@.len() + names.len()
    &&& after@.subrange(0, before@.len() as int) == before@
    &&& list.len() == names.len()
    &&& forall|i: int|
        0 <= i < names.len() ==> {
            &&& (#[trigger] list[i]).0.0 == before@.len() + i
            &&& after.live(list[i].0.0)
            &&& after.value(list[i].0.0)@ == names[i]
        }
}

/// `after` is `before` with the slot of every handle in `list` emptied.
pub open spec fn freed(
    before: Heap<std::string::String>,
    after: Heap<std::string::String>,
    list: Seq<String>,
) -> bool {
    &&& after@.len() == before@.len()
    &&& forall|j: int|
        0 <= j < before@.len() ==> #[trigger] after@[j] == if exists|i: int|
            0 <= i < list.len() && (#[trigger] list[i]).0.0 == j {
            None
        } else {
            before@[j]
        }
}

impl Native {
    pub open spec fn wf(&self) -> bool {
        self.memory.wf()
    }

    /// The list that a query hands out for `names`: `r` owns a fresh list
    /// slot, whose handles own fresh texts equal to `names`; documents and
    /// memory are as they were.
    pub open spec fn query_result(
        before: Native,
        after: Native,
        names: Seq<Seq<char>>,
        r: Result<Vec<String>, QueryError>,
    ) -> bool {
        &&& after.memory == before.memory
        &&& after.documents == before.documents
        &&& before.texts@.len() + names.len() >= usize::MAX || before.lists@.len() >= usize::MAX
            ==> r == Err::<Vec<String>, QueryError>(QueryError::Exhausted) && after == before
        &&& before.texts@.len() + names.len() < usize::MAX && before.lists@.len() < usize::MAX ==> {
            &&& r is Ok
            &&& r->Ok_0.0.0 == before.lists@.len()
            &&& after.lists@ == before.lists@.push(Some(after.lists.value(r->Ok_0.0.0)))
            &&& published(before.texts, after.texts, names, after.lists.value(r->Ok_0.0.0)@)
        }
    }

    /// Nothing allocated, parsed or handed out.
    pub fn new() -> (r: Native)
        ensures
            r.wf(),
            r.memory.blocks@.len() == 0,
            r.documents@.len() == 0,
            r.texts@.len() == 0,
            r.lists@.len() == 0,
    {
        Native {
            memory: Memory::new(),
            documents: Heap::new(),
            texts: Heap::new(),
            lists: Heap::new(),
        }
    }

    /// Moves each text into a fresh text slot and the handles, in order, into
    /// a fresh list slot.
    fn publish(&mut self, names: std::vec::Vec<std::string::String>) -> (r: Result<
        Vec<String>,
        QueryError,
    >)
        ensures
            Native::query_result(
                *old(self),
                *final(self),
                names@.map_values(|s: std::string::String| s@),
                r,
            ),
    {
        let ghost model = names@.map_values(|s: std::string::String| s@);
        if self.lists.len() == usize::MAX || self.texts.len() >= usize::MAX - names.len() {
            return Err(QueryError::Exhausted);
        }
        let mut names = names;
        let n = names.len();
        let base = self.texts.len();
        let mut handles: std::vec::Vec<String> = std::vec::Vec::new();
        let mut i: usize = 0;
        assert(self.texts@.subrange(0, base as int) =~= self.texts@);
        while i < n
            invariant
                n == names@.len(),
                base == old(self).texts@.len(),
                base + n < usize::MAX,
                i <= n,
                self.memory == old(self).memory,
                self.documents == old(self).documents,
                self.lists == old(self).lists,
                model.len() == n,
                forall|k: int| i <= k < n ==> names@[k]@ == #[trigger] model[k],
                published(old(self).texts, self.texts, model.subrange(0, i as int), handles@),
            decreases n - i,
        {
            let mut s = std::string::String::new();
            names.set_and_swap(i, &mut s);
            let ghost before = self.texts;
            let ghost hs = handles@;
            let h = s.into_ffi(&mut self.texts);
            handles.push(h);
            proof {
                assert(self.texts@.subrange(0, base as int) =~= old(self).texts@) by {
                    assert(before@.subrange(0, base as int) == old(self).texts@);
                }
                assert forall|k: int| 0 <= k < i + 1 implies {
                    &&& (#[trigger] handles@[k]).0.0 == base + k
                    &&& self.texts.live(handles@[k].0.0)
                    &&& self.texts.value(handles@[k].0.0)@ == model.subrange(0, i + 1)[k]
                } by {
                    if k < i {
                        assert(handles@[k] == hs[k]);
                    }
                }
            }
            i = i + 1;
        }
        assert(model.subrange(0, n as int) =~= model);
        let list = handles.into_ffi(&mut self.lists);
        Ok(list)
    }
    /// Parses the PE image that `data` views and hands out the handle that
    /// owns the document.
    pub fn parse(&mut self, data: Slice<u8>) -> (r: Result<Box<Document>, ParseError>)
        ensures
            !data.in_bounds(&old(self).memory.blocks) ==> r == Err::<Box<Document>, ParseError>(
                ParseError::BadView,
            ) && *final(self) == *old(self),
            data.in_bounds(&old(self).memory.blocks) ==> {
                let img = pe_of(data.elements(&old(self).memory.blocks));
                &&& img is None ==> r == Err::<Box<Document>, ParseError>(ParseError::Malformed)
                    && *final(self) == *old(self)
                &&& img is Some && old(self).documents@.len() >= usize::MAX ==> r == Err::<
                    Box<Document>,
                    ParseError,
                >(ParseError::Exhausted) && *final(self) == *old(self)
                &&& img is Some && old(self).documents@.len() < usize::MAX ==> {
                    &&& r is Ok
                    &&& r->Ok_0.0 == old(self).documents@.len()
                    &&& final(self).documents@ == old(self).documents@.push(
                        Some(final(self).documents.value(r->Ok_0.0)),
                    )
                    &&& img == Some(
                        (
                            final(self).documents.value(r->Ok_0.0).exports_model(),
                            final(self).documents.value(r->Ok_0.0).imports_model(),
                        ),
                    )
                    &&& final(self).memory == old(self).memory
                    &&& final(self).texts == old(self).texts
                    &&& final(self).lists == old(self).lists
                }
            },
    {
        let doc = match data.into_native(&self.memory.blocks) {
            None => return Err(ParseError::BadView),
            Some(bytes) => match parse_pe(bytes) {
                Ok(d) => d,
                Err(_) => return Err(ParseError::Malformed),
            },
        };
        if self.documents.len() == usize::MAX {
            return Err(ParseError::Exhausted);
        }
        Ok(std::boxed::Box::new(doc).into_ffi(&mut self.documents))
    }

    /// Destroys the document that `h` owns. Gives `false`, and changes
    /// nothing, where `h` owns nothing (never handed out, or destroyed).
    pub fn parse_drop(&mut self, h: Box<Document>) -> (r: bool)
        ensures
            r == old(self).documents.live(h.0),
            r ==> final(self).documents@ == old(self).documents@.update(h.0 as int, None),
            !r ==> final(self).documents@ == old(self).documents@,
            final(self).memory == old(self).memory,
            final(self).texts == old(self).texts,
            final(self).lists == old(self).lists,
    {
        let doc = h.into_native(&mut self.documents);
        doc.is_some()
    }

    /// The names of the document's exports, in order, with `<none>` for an
    /// unnamed export, as a fresh list of fresh texts. The handle stays valid.
    pub fn parse_exports(&mut self, h: &Box<Document>) -> (r: Result<Vec<String>, QueryError>)
        ensures
            !old(self).documents.live(h.0) ==> r == Err::<Vec<String>, QueryError>(
                QueryError::StaleHandle,
            ) && *final(self) == *old(self),
            old(self).documents.live(h.0) ==> Native::query_result(
                *old(self),
                *final(self),
                export_names(old(self).documents.value(h.0).exports_model()),
                r,
            ),
    {
        let doc = match self.documents.get(h) {
            Some(d) => d,
            None => return Err(QueryError::StaleHandle),
        };
        let ghost target = export_names(doc.exports_model());
        let mut names: std::vec::Vec<std::string::String> = std::vec::Vec::new();
        let mut i: usize = 0;
        while i < doc.exports.len()
            invariant
                i <= doc.exports@.len(),
                target.len() == doc.exports@.len(),
                target == export_names(doc.exports_model()),
                names@.len() == i,
                forall|k: int| 0 <= k < i ==> (#[trigger] names@[k])@ == target[k],
            decreases doc.exports@.len() - i,
        {
            let name = match &doc.exports[i].name {
                Some(n) => n.clone(),
                None => {
                    let s = std::string::String::from_str("<none>");
                    proof {
                        reveal_strlit("<none>");
                        assert(s@ =~= none_name());
                    }
                    s
                },
            };
            names.push(name);
            i = i + 1;
        }
        assert(names@.map_values(|s: std::string::String| s@) =~= target);
        self.publish(names)
    }

    /// The module and symbol name of each of the document's imports, in
    /// order, as a fresh list of fresh texts. The handle stays valid.
    pub fn parse_imports(&mut self, h: &Box<Document>) -> (r: Result<Vec<String>, QueryError>)
        ensures
            !old(self).documents.live(h.0) ==> r == Err::<Vec<String>, QueryError>(
                QueryError::StaleHandle,
            ) && *final(self) == *old(self),
            old(self).documents.live(h.0) ==> Native::query_result(
                *old(self),
                *final(self),
                import_names(old(self).documents.value(h.0).imports_model()),
                r,
            ),
    {
        let doc = match self.documents.get(h) {
            Some(d) => d,
            None => return Err(QueryError::StaleHandle),
        };
        let ghost target = import_names(doc.imports_model());
        if doc.imports.len() > usize::MAX / 2 {
            return Err(QueryError::Exhausted);
        }
        let mut names: std::vec::Vec<std::string::String> = std::vec::Vec::new();
        let mut i: usize = 0;
        while i < doc.imports.len()
            invariant
                i <= doc.imports@.len(),
                doc.imports@.len() <= usize::MAX / 2,
                target == import_names(doc.imports_model()),
                names@.len() == 2 * i,
                forall|k: int| 0 <= k < 2 * i ==> (#[trigger] names@[k])@ == target[k],
            decreases doc.imports@.len() - i,
        {
            let import = &doc.imports[i];
            names.push(import.dll.clone());
            names.push(import.name.clone());
            proof {
                assert(target[2 * i] == import.dll@);
                assert(target[2 * i + 1] == import.name@);
            }
            i = i + 1;
        }
        assert(names@.map_values(|s: std::string::String| s@) =~= target);
        self.publish(names)
    }
    /// Destroys a list that a query handed out, and every text it holds.
    /// Gives `false`, and changes nothing, where `v` owns no list.
    pub fn box_vec_str_drop(&mut self, v: Vec<String>) -> (r: bool)
        ensures
            r == old(self).lists.live(v.0.0),
            r ==> final(self).lists@ == old(self).lists@.update(v.0.0 as int, None) && freed(
                old(self).texts,
                final(self).texts,
                old(self).lists.value(v.0.0)@,
            ),
            !r ==> final(self).lists@ == old(self).lists@ && final(self).texts == old(self).texts,
            final(self).memory == old(self).memory,
            final(self).documents == old(self).documents,
    {
        let ghost all = self.lists.value(v.0.0)@;
        let mut list = match v.into_native(&mut self.lists) {
            Some(l) => l,
            None => return false,
        };
        assert(freed(self.texts, self.texts, all.subrange(list@.len() as int, all.len() as int)));
        while list.len() > 0
            invariant
                all.len() >= list@.len(),
                list@ == all.subrange(0, list@.len() as int),
                freed(old(self).texts, self.texts, all.subrange(list@.len() as int, all.len() as int)),
                self.memory == old(self).memory,
                self.documents == old(self).documents,
                self.lists@ == old(self).lists@.update(v.0.0 as int, None),
            decreases list@.len(),
        {
            let ghost k = list@.len() - 1;
            let ghost before = self.texts;
            let h = match list.pop() {
                Some(h) => h,
                None => return true,
            };
            let ghost j0 = h.0.0 as int;
            let _ = h.into_native(&mut self.texts);
            proof {
                let done = all.subrange(k + 1, all.len() as int);
                let now = all.subrange(k, all.len() as int);
                assert(now[0] == all[k]);
                assert forall|j: int| 0 <= j < old(self).texts@.len() implies #[trigger] self.texts@[j]
                    == if exists|i: int| 0 <= i < now.len() && (#[trigger] now[i]).0.0 == j {
                    None
                } else {
                    old(self).texts@[j]
                } by {
                    if j == j0 {
                        assert(now[0].0.0 == j);
                    } else {
                        assert(self.texts@[j] == before@[j]);
                        if exists|i: int| 0 <= i < now.len() && (#[trigger] now[i]).0.0 == j {
                            let i = choose|i: int| 0 <= i < now.len() && (#[trigger] now[i]).0.0 == j;
                            assert(done[i - 1] == now[i]);
                        } else {
                            assert forall|i: int| 0 <= i < done.len() implies (#[trigger] done[i]).0.0
                                != j by {
                                assert(done[i] == now[i + 1]);
                            }
                        }
                    }
                }
                assert(list@ =~= all.subrange(0, list@.len() as int));
            }
        }
        true
    }
}

} // verus!
