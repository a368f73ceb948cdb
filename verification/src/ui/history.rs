//! Which screen is showing, the status-bar notice, and the app-wide
//! undo/redo history of typed text.
//!
//! Every text field's edits go through `push_edit`, which records the
//! field and its previous value on a single chronological undo stack, so
//! Ctrl/Cmd+Z undoes the last edit made anywhere, as in ordinary apps.
use vstd::prelude::*;
use crate::ui::items::{FormField, ItemForm, PurchaseField, PurchaseForm};
use crate::ui::register::RegisterForm;
use crate::ui::reports::ReportsState;
use crate::ui::sale::SaleForm;
use crate::ui::settings::{ProfileField, ProfileForm};

verus! {

#[derive(Debug, Clone, Copy, PartialEq, Eq, Structural)]
pub enum Stage {
    Loading,
    Activation,
    Register,
    Login,
    Home,
    Inventory,
    Shop,
    Settings,
}

#[derive(Debug, Clone, Copy, PartialEq, Eq, Structural)]
pub enum ShopTab {
    Details,
    Billings,
    Reports,
}

#[derive(Debug, Clone, Copy, PartialEq, Eq, Structural)]
pub enum InventoryTab {
    Items,
    Backup,
}

/// How loudly the status bar says something.
#[derive(Debug, Clone, Copy, PartialEq, Eq, Structural)]
pub enum NoticeKind {
    Error,
    Success,
    Warning,
}

/// A one-line message shown in the status bar.
#[derive(Debug)]
pub struct Notice {
    pub text: String,
    pub kind: NoticeKind,
}

impl Notice {
    pub fn error(text: String) -> (r: Notice)
        ensures
            r.text == text && r.kind == NoticeKind::Error,
    {
        Notice { text, kind: NoticeKind::Error }
    }

    pub fn success(text: String) -> (r: Notice)
        ensures
            r.text == text && r.kind == NoticeKind::Success,
    {
        Notice { text, kind: NoticeKind::Success }
    }

    pub fn warning(text: String) -> (r: Notice)
        ensures
            r.text == text && r.kind == NoticeKind::Warning,
    {
        Notice { text, kind: NoticeKind::Warning }
    }
}

/// One editable text field anywhere in the app.
#[derive(Debug, Clone, Copy, PartialEq, Eq, Structural)]
pub enum EditableField {
    ItemForm(FormField),
    Purchase(PurchaseField),
    Register(crate::ui::register::Field),
    Sale(crate::ui::sale::Field),
    Profile(ProfileField),
    Reports(crate::ui::reports::Field),
    Search,
    BillQty,
    BillPrice,
    BillDiscount,
    BillCustomer,
    ActivationKey,
}

/// The most edits the undo stack keeps.
pub const HISTORY_LIMIT: usize = 200;

/// Every editable text field, with the undo and redo stacks.
pub struct EditableState {
    /// The add/edit item form, when open.
    pub item_form: Option<ItemForm>,
    /// The restock form, when open.
    pub purchase_form: Option<PurchaseForm>,
    pub register_form: RegisterForm,
    pub sale_form: SaleForm,
    pub profile_form: ProfileForm,
    pub reports: ReportsState,
    pub search_query: String,
    /// The inventory list's page, reset whenever the search changes.
    pub items_page: usize,
    pub bill_qty: String,
    pub bill_price: String,
    pub bill_discount: String,
    pub bill_customer: String,
    pub activation_key: String,
    /// (field, its value before the edit), most recent last.
    pub undo_stack: Vec<(EditableField, String)>,
    /// (field, its value before the undo), most recent last.
    pub redo_stack: Vec<(EditableField, String)>,
}

impl Default for EditableState {
    fn default() -> (r: EditableState)
        ensures
            r.item_form is None,
            r.purchase_form is None,
            r.search_query@.len() == 0,
            r.items_page == 0,
            r.undo_stack@.len() == 0,
            r.redo_stack@.len() == 0,
    {
        EditableState {
            item_form: None,
            purchase_form: None,
            register_form: RegisterForm::default(),
            sale_form: SaleForm::default(),
            profile_form: ProfileForm::default(),
            reports: ReportsState::default(),
            search_query: String::new(),
            items_page: 0,
            bill_qty: String::new(),
            bill_price: String::new(),
            bill_discount: String::new(),
            bill_customer: String::new(),
            activation_key: String::new(),
            undo_stack: Vec::new(),
            redo_stack: Vec::new(),
        }
    }
}

/// The text of every field (`None` where its form is closed), and the two
/// stacks.
pub type EditModel = (Map<EditableField, Option<Seq<char>>>, Seq<(EditableField, Seq<char>)>, Seq<(EditableField, Seq<char>)>);

pub open spec fn stack_view(s: Seq<(EditableField, String)>) -> Seq<(EditableField, Seq<char>)> {
    s.map_values(|e: (EditableField, String)| (e.0, e.1@))
}

impl EditableState {
    /// The text in `field`, or `None` when its form is not open.
    pub open spec fn field_value(&self, field: EditableField) -> Option<Seq<char>> {
        match field {
            EditableField::ItemForm(f) => match self.item_form {
                Some(form) => Some(form.value(f)),
                None => None,
            },
            EditableField::Purchase(f) => match self.purchase_form {
                Some(form) => Some(form.value(f)),
                None => None,
            },
            EditableField::Register(f) => Some(self.register_form.value(f)),
            EditableField::Sale(f) => Some(self.sale_form.value(f)),
            EditableField::Profile(f) => Some(self.profile_form.value(f)),
            EditableField::Reports(f) => Some(self.reports.value(f)),
            EditableField::Search => Some(self.search_query@),
            EditableField::BillQty => Some(self.bill_qty@),
            EditableField::BillPrice => Some(self.bill_price@),
            EditableField::BillDiscount => Some(self.bill_discount@),
            EditableField::BillCustomer => Some(self.bill_customer@),
            EditableField::ActivationKey => Some(self.activation_key@),
        }
    }

    pub open spec fn values(&self) -> Map<EditableField, Option<Seq<char>>> {
        Map::new(|f: EditableField| true, |f: EditableField| self.field_value(f))
    }

    /// Every field has a place in the model of a state.
    pub proof fn lemma_values_total(&self, f: EditableField)
        ensures
            self.model().0.dom().contains(f),
    {
    }

    pub open spec fn model(&self) -> EditModel {
        (self.values(), stack_view(self.undo_stack@), stack_view(self.redo_stack@))
    }
}

/// Everything in `b` that is not typed text is as in `a`: the open forms
/// are the same forms (the item being edited, its unit and photo; the item
/// being restocked), the sale's item, the profile's logo choice, and the
/// report's filter, figures, page and calendar.
pub open spec fn same_fixed_parts(a: EditableState, b: EditableState) -> bool {
    &&& match (a.item_form, b.item_form) {
        (Some(x), Some(y)) => x.editing_id == y.editing_id && x.unit == y.unit && x.image == y.image,
        (None, None) => true,
        _ => false,
    }
    &&& match (a.purchase_form, b.purchase_form) {
        (Some(x), Some(y)) => x.item_id == y.item_id && x.item_name == y.item_name,
        (None, None) => true,
        _ => false,
    }
    &&& b.sale_form.item == a.sale_form.item
    &&& b.profile_form.logo == a.profile_form.logo
    &&& b.profile_form.logo_removed == a.profile_form.logo_removed
    &&& b.reports == (ReportsState { from: b.reports.from, to: b.reports.to, ..a.reports })
}

/// The inventory list's page after writing into `f`: back to the first
/// page when the search changes.
pub open spec fn page_after(items_page: usize, f: EditableField) -> usize {
    if f == EditableField::Search {
        0
    } else {
        items_page
    }
}

/// The page after undoing (or redoing) from `stack`: as writing the
/// stack's last field would leave it.
pub open spec fn page_after_replay(items_page: usize, stack: Seq<(EditableField, String)>) -> usize {
    if stack.len() == 0 {
        items_page
    } else {
        page_after(items_page, stack.last().0)
    }
}

/// Writing `v` into `f`: the new texts, and what `f` held before (or `v`
/// itself when `f`'s form is closed, which changes nothing).
pub open spec fn apply_model(vals: Map<EditableField, Option<Seq<char>>>, f: EditableField, v: Seq<char>) -> (
    Map<EditableField, Option<Seq<char>>>,
    Seq<char>,
) {
    match vals[f] {
        Some(prev) => (vals.insert(f, Some(v)), prev),
        None => (vals, v),
    }
}

/// A typed edit: applied, its previous value pushed for undo (keeping the
/// last `HISTORY_LIMIT`), and the redo stack abandoned.
pub open spec fn push_model(m: EditModel, f: EditableField, v: Seq<char>) -> EditModel {
    let (vals, prev) = apply_model(m.0, f, v);
    let undo = m.1.push((f, prev));
    (vals, if undo.len() > HISTORY_LIMIT { undo.drop_first() } else { undo }, Seq::empty())
}

/// Undo: the last recorded value goes back into its field, and what it
/// replaced is pushed for redo.
pub open spec fn undo_model(m: EditModel) -> EditModel {
    if m.1.len() == 0 {
        m
    } else {
        let (f, v) = m.1.last();
        let (vals, cur) = apply_model(m.0, f, v);
        (vals, m.1.drop_last(), m.2.push((f, cur)))
    }
}

/// Redo: the mirror image of undo.
pub open spec fn redo_model(m: EditModel) -> EditModel {
    if m.2.len() == 0 {
        m
    } else {
        let (f, v) = m.2.last();
        let (vals, cur) = apply_model(m.0, f, v);
        (vals, m.1.push((f, cur)), m.2.drop_last())
    }
}

/// Puts `value` into `slot`, handing back what was there.
fn replace_text(slot: &mut String, value: String) -> (r: String)
    ensures
        *final(slot) == value,
        r == *old(slot),
{
    let mut v = value;
    std::mem::swap(slot, &mut v);
    v
}

/// Writes `value` into `field` and returns what was there before; a field
/// whose form is not open is left alone and `value` comes straight back.
pub fn apply_edit(state: &mut EditableState, field: EditableField, value: String) -> (r: String)
    ensures
        (final(state).values(), r@) == apply_model(old(state).values(), field, value@),
        final(state).undo_stack == old(state).undo_stack,
        final(state).redo_stack == old(state).redo_stack,
        final(state).items_page == page_after(old(state).items_page, field),
        same_fixed_parts(*old(state), *final(state)),
{
    let ghost before = *state;
    let r = match field {
        EditableField::ItemForm(f) => match state.item_form.take() {
            Some(mut form) => {
                let prev = form.get_field(f);
                form.set_field(f, value);
                state.item_form = Some(form);
                prev
            },
            None => value,
        },
        EditableField::Purchase(f) => match state.purchase_form.take() {
            Some(mut form) => {
                let prev = form.get_field(f);
                form.set_field(f, value);
                state.purchase_form = Some(form);
                prev
            },
            None => value,
        },
        EditableField::Register(f) => {
            let prev = state.register_form.get_field(f);
            state.register_form.set_field(f, value);
            prev
        },
        EditableField::Sale(f) => {
            let prev = state.sale_form.get_field(f);
            state.sale_form.set_field(f, value);
            prev
        },
        EditableField::Profile(f) => {
            let prev = state.profile_form.get_field(f);
            state.profile_form.set_field(f, value);
            prev
        },
        EditableField::Reports(f) => {
            let prev = state.reports.get_field(f);
            state.reports.set_field(f, value);
            prev
        },
        EditableField::Search => {
            let prev = replace_text(&mut state.search_query, value);
            state.items_page = 0;
            prev
        },
        EditableField::BillQty => replace_text(&mut state.bill_qty, value),
        EditableField::BillPrice => replace_text(&mut state.bill_price, value),
        EditableField::BillDiscount => replace_text(&mut state.bill_discount, value),
        EditableField::BillCustomer => replace_text(&mut state.bill_customer, value),
        EditableField::ActivationKey => replace_text(&mut state.activation_key, value),
    };
    proof {
        let expected = apply_model(before.values(), field, value@);
        assert forall|g: EditableField| #[trigger] state.values()[g] == expected.0[g] by {
            if g != field {
                match g {
                    EditableField::ItemForm(h) => {},
                    EditableField::Purchase(h) => {},
                    _ => {},
                }
            }
        }
        assert(state.values() =~= expected.0);
    }
    r
}

/// Records a typed edit and applies it, so Ctrl/Cmd+Z has something to
/// undo.
pub fn push_edit(state: &mut EditableState, field: EditableField, value: String)
    ensures
        final(state).model() == push_model(old(state).model(), field, value@),
        final(state).items_page == page_after(old(state).items_page, field),
        same_fixed_parts(*old(state), *final(state)),
{
    let ghost before = state.model();
    let prev = apply_edit(state, field, value);
    state.undo_stack.push((field, prev));
    state.redo_stack.clear();
    if state.undo_stack.len() > HISTORY_LIMIT {
        state.undo_stack.remove(0);
    }
    proof {
        assert(stack_view(state.redo_stack@) =~= Seq::empty());
        assert(stack_view(state.undo_stack@) =~= push_model(before, field, value@).1);
    }
}

/// Puts the most recently edited field back as it was.
pub fn undo(state: &mut EditableState)
    ensures
        final(state).model() == undo_model(old(state).model()),
        final(state).items_page == page_after_replay(old(state).items_page, old(state).undo_stack@),
        same_fixed_parts(*old(state), *final(state)),
{
    let ghost before = state.model();
    let ghost old_stack = state.undo_stack@;
    match state.undo_stack.pop() {
        Some((field, value)) => {
            assert(before.1.last() == (field, value@)) by {
                assert(old_stack.last() == (field, value));
            }
            assert(state.values() =~= before.0);
            let ghost mid = state.values();
            let current = apply_edit(state, field, value);
            assert((state.values(), current@) == apply_model(before.0, field, value@));
            state.redo_stack.push((field, current));
            proof {
                assert(stack_view(state.undo_stack@) =~= before.1.drop_last());
                assert(stack_view(state.redo_stack@) =~= before.2.push((field, current@)));
                assert(state.model() == undo_model(before));
            }
        },
        None => {},
    }
}

/// Re-applies the most recently undone edit.
pub fn redo(state: &mut EditableState)
    ensures
        final(state).model() == redo_model(old(state).model()),
        final(state).items_page == page_after_replay(old(state).items_page, old(state).redo_stack@),
        same_fixed_parts(*old(state), *final(state)),
{
    let ghost before = state.model();
    let ghost old_stack = state.redo_stack@;
    match state.redo_stack.pop() {
        Some((field, value)) => {
            assert(before.2.last() == (field, value@)) by {
                assert(old_stack.last() == (field, value));
            }
            assert(state.values() =~= before.0);
            let ghost mid = state.values();
            let current = apply_edit(state, field, value);
            assert((state.values(), current@) == apply_model(before.0, field, value@));
            state.undo_stack.push((field, current));
            proof {
                assert(stack_view(state.redo_stack@) =~= before.2.drop_last());
                assert(stack_view(state.undo_stack@) =~= before.1.push((field, current@)));
                assert(state.model() == redo_model(before));
            }
        },
        None => {},
    }
}


/// Undoing an edit puts every field back as it was before the edit,
/// whether or not the edited field's form was open.
pub proof fn lemma_undo_restores(m: EditModel, f: EditableField, v: Seq<char>)
    requires
        m.0.dom().contains(f),
    ensures
        undo_model(push_model(m, f, v)).0 == m.0,
{
    let p = push_model(m, f, v);
    let (vals, prev) = apply_model(m.0, f, v);
    assert(p.1.last() == (f, prev));
    match m.0[f] {
        Some(old_text) => {
            assert(undo_model(p).0 =~= m.0);
        },
        None => {},
    }
}

/// Redoing an undone edit re-applies it.
pub proof fn lemma_redo_reapplies(m: EditModel, f: EditableField, v: Seq<char>)
    requires
        m.0.dom().contains(f),
    ensures
        redo_model(undo_model(push_model(m, f, v))).0 == push_model(m, f, v).0,
{
    let p = push_model(m, f, v);
    let (vals, prev) = apply_model(m.0, f, v);
    assert(p.1.last() == (f, prev));
    let u = undo_model(p);
    lemma_undo_restores(m, f, v);
    assert(u.2.last() == (f, apply_model(p.0, f, prev).1));
    match m.0[f] {
        Some(old_text) => {
            assert(redo_model(u).0 =~= p.0);
        },
        None => {},
    }
}

/// A fresh edit abandons whatever was waiting to be redone.
pub proof fn lemma_edit_clears_redo(m: EditModel, f: EditableField, v: Seq<char>)
    ensures
        push_model(m, f, v).2.len() == 0,
        redo_model(push_model(m, f, v)) == push_model(m, f, v),
{
}

/// Undo and redo with nothing to undo or redo change nothing.
pub proof fn lemma_empty_history_is_inert(m: EditModel)
    ensures
        m.1.len() == 0 ==> undo_model(m) == m,
        m.2.len() == 0 ==> redo_model(m) == m,
{
}

/// The history never holds more than `HISTORY_LIMIT` entries between its
/// two stacks: editing, undoing and redoing all keep that bound.
pub proof fn lemma_history_bounded(m: EditModel, f: EditableField, v: Seq<char>)
    requires
        m.1.len() + m.2.len() <= HISTORY_LIMIT,
    ensures
        push_model(m, f, v).1.len() + push_model(m, f, v).2.len() <= HISTORY_LIMIT,
        undo_model(m).1.len() + undo_model(m).2.len() <= HISTORY_LIMIT,
        redo_model(m).1.len() + redo_model(m).2.len() <= HISTORY_LIMIT,
{
}

/// `vs` typed into `f` one after another.
pub open spec fn push_all(m: EditModel, f: EditableField, vs: Seq<Seq<char>>) -> EditModel
    decreases vs.len(),
{
    if vs.len() == 0 {
        m
    } else {
        push_model(push_all(m, f, vs.drop_last()), f, vs.last())
    }
}

/// `k` undos in a row.
pub open spec fn undo_times(m: EditModel, k: nat) -> EditModel
    decreases k,
{
    if k == 0 {
        m
    } else {
        undo_model(undo_times(m, (k - 1) as nat))
    }
}

/// The last `j` entries of `a` and of `b` are the same.
pub open spec fn ends_agree(a: Seq<(EditableField, Seq<char>)>, b: Seq<(EditableField, Seq<char>)>, j: int) -> bool {
    &&& 0 <= j <= a.len()
    &&& j <= b.len()
    &&& forall|i: int| 0 <= i < j ==> #[trigger] a[a.len() - j + i] == b[b.len() - j + i]
}

proof fn lemma_push_all_open(m: EditModel, f: EditableField, vs: Seq<Seq<char>>)
    requires
        m.0.dom().contains(f),
        m.0[f] is Some,
    ensures
        push_all(m, f, vs).0.dom().contains(f),
        push_all(m, f, vs).0[f] is Some,
        push_all(m, f, vs).1.len() >= (if vs.len() < HISTORY_LIMIT { vs.len() as int } else { HISTORY_LIMIT as int }),
    decreases vs.len(),
{
    if vs.len() > 0 {
        lemma_push_all_open(m, f, vs.drop_last());
    }
}

/// The undo stack after one more edit: the stack before it (less its
/// oldest entry, once the limit is reached) with the edit's previous
/// value on top.
proof fn lemma_push_all_tail(m: EditModel, f: EditableField, vs: Seq<Seq<char>>)
    requires
        m.0.dom().contains(f),
        m.0[f] is Some,
        0 < vs.len() <= HISTORY_LIMIT,
    ensures
        push_all(m, f, vs).1.len() >= vs.len(),
        push_all(m, f, vs).1.last() == (f, push_all(m, f, vs.drop_last()).0[f]->Some_0),
        ends_agree(push_all(m, f, vs).1.drop_last(), push_all(m, f, vs.drop_last()).1, vs.len() - 1),
{
    let w = vs.drop_last();
    lemma_push_all_open(m, f, vs);
    lemma_push_all_open(m, f, w);
    let pw = push_all(m, f, w);
    let e = (f, pw.0[f]->Some_0);
    let u = pw.1.push(e);
    assert(push_all(m, f, vs).1 == (if u.len() > HISTORY_LIMIT { u.drop_first() } else { u }));
    if u.len() > HISTORY_LIMIT {
        assert(u.drop_first().drop_last() =~= pw.1.drop_first());
        assert(u.drop_first().last() == e);
    } else {
        assert(u.drop_last() =~= pw.1);
    }
}

proof fn lemma_undo_unwinds(m: EditModel, f: EditableField, vs: Seq<Seq<char>>, k: nat)
    requires
        m.0.dom().contains(f),
        m.0[f] is Some,
        vs.len() <= HISTORY_LIMIT,
        k <= vs.len(),
    ensures
        undo_times(push_all(m, f, vs), k).0 == push_all(m, f, vs.take(vs.len() - k)).0,
        ends_agree(undo_times(push_all(m, f, vs), k).1, push_all(m, f, vs.take(vs.len() - k)).1, vs.len() - k),
    decreases k,
{
    if k == 0 {
        assert(vs.take(vs.len() as int) =~= vs);
        lemma_push_all_open(m, f, vs);
    } else {
        lemma_undo_unwinds(m, f, vs, (k - 1) as nat);
        let j = vs.len() - k;
        let q = vs.take(j + 1);
        let r = vs.take(j);
        assert(q.drop_last() =~= r);
        assert(q.last() == vs[j]);
        lemma_push_all_tail(m, f, q);
        lemma_push_all_open(m, f, r);
        let pq = push_all(m, f, q);
        let pr = push_all(m, f, r);
        let x = undo_times(push_all(m, f, vs), (k - 1) as nat);
        let prev = pr.0[f]->Some_0;
        assert(pq == push_model(pr, f, vs[j]));
        assert(pq.0 == pr.0.insert(f, Some(vs[j])));
        assert(x.1[x.1.len() - (j + 1) + j] == pq.1[pq.1.len() - (j + 1) + j]);
        assert(x.1.last() == (f, prev));
        assert(undo_model(x).0 =~= pr.0);
        let y = x.1.drop_last();
        let pqd = pq.1.drop_last();
        assert forall|i: int| 0 <= i < j implies #[trigger] y[y.len() - j + i] == pr.1[pr.1.len() - j + i] by {
            assert(y[y.len() - j + i] == x.1[x.1.len() - (j + 1) + i]);
            assert(x.1[x.1.len() - (j + 1) + i] == pq.1[pq.1.len() - (j + 1) + i]);
            assert(pqd[pqd.len() - j + i] == pq.1[pq.1.len() - (j + 1) + i]);
        }
        assert(undo_model(x).1 == y);
    }
}

/// Undo walks a run of typing back one edit at a time: after `vs` (at
/// most `HISTORY_LIMIT` edits) is typed into an open field `f`, whatever
/// the history held before, `k` undos leave every field as it was after
/// the first `vs.len() - k` edits, and undoing them all restores the
/// fields as they were before any.
pub proof fn lemma_undo_unwinds_edits(m: EditModel, f: EditableField, vs: Seq<Seq<char>>, k: nat)
    requires
        m.0.dom().contains(f),
        m.0[f] is Some,
        vs.len() <= HISTORY_LIMIT,
        k <= vs.len(),
    ensures
        undo_times(push_all(m, f, vs), k).0 == push_all(m, f, vs.take(vs.len() - k)).0,
        k == vs.len() ==> undo_times(push_all(m, f, vs), k).0 == m.0,
{
    lemma_undo_unwinds(m, f, vs, k);
    if k == vs.len() {
        assert(vs.take(0) =~= Seq::<Seq<char>>::empty());
    }
}

} // verus!
