use vstd::prelude::*;

verus! {

/// Whether a sheet is shown by default, hidden, or hidden beyond the user
/// interface's reach.
#[derive(Clone, Copy, PartialEq, Eq, Structural, Debug)]
pub enum Visibility {
    Visible,
    Hidden,
    VeryHidden,
}

/// One sheet's metadata: its name and its visibility flag.
#[derive(Clone, PartialEq, Eq, Debug)]
pub struct SheetInfo {
    pub name: String,
    pub visible: Visibility,
}

/// The mathematical model of one sheet's metadata.
pub struct SheetInfoV {
    pub name: Seq<char>,
    pub visible: Visibility,
}

impl View for SheetInfo {
    type V = SheetInfoV;

    open spec fn view(&self) -> SheetInfoV {
        SheetInfoV { name: self.name@, visible: self.visible }
    }
}

/// View of a list of names.
pub open spec fn names_view(v: Seq<String>) -> Seq<Seq<char>> {
    v.map_values(|s: String| s@)
}

/// View of a list of sheet descriptors.
pub open spec fn meta_view(v: Seq<SheetInfo>) -> Seq<SheetInfoV> {
    v.map_values(|s: SheetInfo| s@)
}

/// The names of the descriptors whose visibility is exactly `Visible`, in
/// descriptor order; both `Hidden` and `VeryHidden` are left out.
pub open spec fn spec_visible_names(meta: Seq<SheetInfoV>) -> Seq<Seq<char>>
    decreases meta.len(),
{
    if meta.len() == 0 {
        Seq::empty()
    } else {
        let rest = spec_visible_names(meta.drop_last());
        if meta.last().visible == Visibility::Visible {
            rest.push(meta.last().name)
        } else {
            rest
        }
    }
}

/// What the filter returns: with `show_hidden` the name list itself, in its
/// own order and with metadata ignored; without it, the visible descriptors'
/// names in metadata order.
pub open spec fn spec_filter_names(
    names: Seq<Seq<char>>,
    meta: Seq<SheetInfoV>,
    show_hidden: bool,
) -> Seq<Seq<char>> {
    if show_hidden {
        names
    } else {
        spec_visible_names(meta)
    }
}

/// With `show_hidden` set the filter is the identity on the name list, in its
/// original order: the metadata cannot change the result.
pub proof fn lemma_show_hidden_is_identity(names: Seq<Seq<char>>, meta: Seq<SheetInfoV>)
    ensures
        spec_filter_names(names, meta, true) == names,
{
}

/// Without `show_hidden`, a name stands in the filter's result exactly when
/// some descriptor carries it with visibility `Visible`: descriptors that are
/// `Hidden` or `VeryHidden` contribute nothing.
pub proof fn lemma_hidden_names_excluded(meta: Seq<SheetInfoV>, s: Seq<char>)
    ensures
        spec_visible_names(meta).contains(s) <==> (exists|j: int|
            0 <= j < meta.len() && (#[trigger] meta[j]).visible == Visibility::Visible
                && meta[j].name == s),
    decreases meta.len(),
{
    if meta.len() > 0 {
        let rest = meta.drop_last();
        lemma_hidden_names_excluded(rest, s);
        let vn = spec_visible_names(meta);
        let rvn = spec_visible_names(rest);
        assert(forall|j: int| 0 <= j < rest.len() ==> rest[j] == meta[j]);
        if vn.contains(s) {
            let i = choose|i: int| 0 <= i < vn.len() && vn[i] == s;
            if meta.last().visible == Visibility::Visible && i == vn.len() - 1 {
                assert(meta[meta.len() - 1].visible == Visibility::Visible && meta[meta.len()
                    - 1].name == s);
            } else {
                assert(rvn[i] == s);
                assert(rvn.contains(s));
                let j = choose|j: int|
                    0 <= j < rest.len() && (#[trigger] rest[j]).visible == Visibility::Visible
                        && rest[j].name == s;
                assert(meta[j].visible == Visibility::Visible && meta[j].name == s);
            }
        }
        if (exists|j: int|
            0 <= j < meta.len() && (#[trigger] meta[j]).visible == Visibility::Visible
                && meta[j].name == s) {
            let j = choose|j: int|
                0 <= j < meta.len() && (#[trigger] meta[j]).visible == Visibility::Visible
                    && meta[j].name == s;
            if j == meta.len() - 1 {
                assert(vn[vn.len() - 1] == s);
                assert(vn.contains(s));
            } else {
                assert(rest[j].visible == Visibility::Visible && rest[j].name == s);
                assert(rvn.contains(s));
                let i = choose|i: int| 0 <= i < rvn.len() && rvn[i] == s;
                assert(vn[i] == s);
                assert(vn.contains(s));
            }
        }
    }
}

/// Filters sheet names by visibility. When `show_hidden` is set the name list
/// is returned unchanged and the metadata is not consulted at all; otherwise
/// the result is built from the metadata alone, keeping its order, which is
/// observable when the two sequences disagree.
pub fn filter_sheet_names_by_visibility(
    sheet_names: &Vec<String>,
    sheets_metadata: &Vec<SheetInfo>,
    show_hidden: bool,
) -> (r: Vec<String>)
    ensures
        names_view(r@) == spec_filter_names(
            names_view(sheet_names@),
            meta_view(sheets_metadata@),
            show_hidden,
        ),
{
    if show_hidden {
        let mut out: Vec<String> = Vec::new();
        let mut i: usize = 0;
        while i < sheet_names.len()
            invariant
                i <= sheet_names.len(),
                out@.len() == i,
                forall|k: int| 0 <= k < i ==> (#[trigger] out@[k])@ == sheet_names@[k]@,
            decreases sheet_names.len() - i,
        {
            let s = sheet_names[i].clone();
            out.push(s);
            i += 1;
        }
        proof {
            assert(names_view(out@) =~= names_view(sheet_names@));
        }
        out
    } else {
        let mut out: Vec<String> = Vec::new();
        let mut i: usize = 0;
        while i < sheets_metadata.len()
            invariant
                i <= sheets_metadata.len(),
                names_view(out@) == spec_visible_names(meta_view(sheets_metadata@).take(i as int)),
            decreases sheets_metadata.len() - i,
        {
            let ghost pre = meta_view(sheets_metadata@).take(i as int);
            let ghost cur = meta_view(sheets_metadata@).take(i as int + 1);
            proof {
                assert(cur.drop_last() =~= pre);
                assert(cur.last() == sheets_metadata@[i as int]@);
            }
            let is_visible = match sheets_metadata[i].visible {
                Visibility::Visible => true,
                Visibility::Hidden => false,
                Visibility::VeryHidden => false,
            };
            if is_visible {
                let s = sheets_metadata[i].name.clone();
                out.push(s);
                proof {
                    assert(names_view(out@) =~= spec_visible_names(cur));
                }
            } else {
                proof {
                    assert(names_view(out@) =~= spec_visible_names(cur));
                }
            }
            i += 1;
        }
        proof {
            assert(meta_view(sheets_metadata@).take(sheets_metadata@.len() as int) =~= meta_view(
                sheets_metadata@,
            ));
        }
        out
    }
}

} // verus!
