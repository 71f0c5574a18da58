//! The form: it collects the result of each field's validation and decides
//! when and how a submission ends.

use vstd::prelude::*;
use form_validation::ValidationErrors;
use crate::errors::{ErrorEntry, error_list, no_errors, append_errors, has_no_errors, copy_errors};
use crate::keyed::{KeyedList, keys_of, map_of, lemma_map_of_dom, lemma_map_of_index};
use crate::link::{FieldMsg, FormFieldLink};

verus! {

/// A message to the form.
pub enum FormMsg {
    /// A field's value changed; only the view is redrawn.
    FieldValueUpdate(String),
    /// A field finished validating, with these errors.
    FieldValidationUpdate(String, ValidationErrors<String>),
    /// Validate every registered field, then submit once all have reported.
    ValidateThenSubmit,
    /// Submit with the errors known now.
    Submit,
    /// Cancel the form.
    Cancel,
    /// A message with no effect.
    Ignore,
}

/// What the host does after the form has handled a message.
pub enum FormAction {
    /// Tell the form's caller that a validation pass has begun.
    ValidationStarted,
    /// Send this command to every registered field.
    SendAllFields(FieldMsg),
    /// Tell the form's caller the errors known now, all fields together.
    ValidationUpdated(ValidationErrors<String>),
    /// Tell the form's caller how the submission ended.
    Submitted(Result<(), ValidationErrors<String>>),
    /// Tell the form's caller that the form was cancelled.
    Cancelled,
}

/// The errors of a list of per-field results, one field after another.
pub open spec fn aggregate(entries: Seq<(String, ValidationErrors<String>)>) -> Seq<ErrorEntry>
    decreases entries.len(),
{
    if entries.len() == 0 {
        Seq::empty()
    } else {
        aggregate(entries.drop_last()) + error_list(entries.last().1)
    }
}

/// Every field's result is free of errors.
pub open spec fn all_clear(m: Map<Seq<char>, Seq<ErrorEntry>>) -> bool {
    forall|k: Seq<char>| #[trigger] m.contains_key(k) ==> m[k].len() == 0
}

/// The state that a field's report leaves: its result is stored, replacing
/// an earlier one; a pass under way ends once every key of `registered` has
/// a result. The third component tells whether the report ends the pass.
pub open spec fn report_step(
    results: Map<Seq<char>, Seq<ErrorEntry>>,
    validating: bool,
    key: Seq<char>,
    errors: Seq<ErrorEntry>,
    registered: Set<Seq<char>>,
) -> (Map<Seq<char>, Seq<ErrorEntry>>, bool, bool) {
    let next = results.insert(key, errors);
    let done = validating && registered.subset_of(next.dom());
    (next, validating && !done, done)
}

/// The outcome of a submission over `results`, whose errors in order are
/// `all`: success when no field has an error, else every error.
pub open spec fn is_submission(
    a: FormAction,
    results: Map<Seq<char>, Seq<ErrorEntry>>,
    all: Seq<ErrorEntry>,
) -> bool {
    match a {
        FormAction::Submitted(Ok(())) => all_clear(results),
        FormAction::Submitted(Err(e)) => !all_clear(results) && error_list(e) == all,
        _ => false,
    }
}

proof fn lemma_aggregate_empty(entries: Seq<(String, ValidationErrors<String>)>)
    requires
        keys_of(entries).no_duplicates(),
    ensures
        (aggregate(entries).len() == 0) == all_clear(
            map_of(entries).map_values(|e: ValidationErrors<String>| error_list(e)),
        ),
    decreases entries.len(),
{
    let m = map_of(entries).map_values(|e: ValidationErrors<String>| error_list(e));
    if entries.len() == 0 {
        assert(m =~= Map::empty());
    } else {
        let init = entries.drop_last();
        assert(keys_of(init) =~= keys_of(entries).drop_last());
        lemma_aggregate_empty(init);
        let mi = map_of(init).map_values(|e: ValidationErrors<String>| error_list(e));
        let k = entries.last().0@;
        assert(m =~= mi.insert(k, error_list(entries.last().1)));
        lemma_map_of_dom(init);
        assert(!mi.contains_key(k)) by {
            let ks = keys_of(entries);
            if keys_of(init).contains(k) {
                let j = choose|j: int|
                    0 <= j < keys_of(init).len() && keys_of(init)[j]
                        == k;
                assert(ks[j] == ks[entries.len() - 1]);
            }
        }
        if all_clear(mi) && error_list(entries.last().1).len() == 0 {
            assert(all_clear(m));
        }
        if !all_clear(mi) {
            let k2 = choose|k2: Seq<char>| #[trigger] mi.contains_key(k2) && mi[k2].len() != 0;
            assert(m.contains_key(k2) && m[k2] == mi[k2]);
        }
        if error_list(entries.last().1).len() != 0 {
            assert(m.contains_key(k));
        }
    }
}

/// The state after `reports`, each a key and its errors, reach a form whose
/// results are `results`; the third component counts the reports that ended
/// a validation pass.
pub open spec fn replay(
    results: Map<Seq<char>, Seq<ErrorEntry>>,
    validating: bool,
    reports: Seq<(Seq<char>, Seq<ErrorEntry>)>,
    registered: Set<Seq<char>>,
) -> (Map<Seq<char>, Seq<ErrorEntry>>, bool, nat)
    decreases reports.len(),
{
    if reports.len() == 0 {
        (results, validating, 0)
    } else {
        let before = replay(results, validating, reports.drop_last(), registered);
        let step = report_step(
            before.0,
            before.1,
            reports.last().0,
            reports.last().1,
            registered,
        );
        (step.0, step.1, before.2 + if step.2 {
            1nat
        } else {
            0nat
        })
    }
}

/// One report without error from each key of `order`, in that order.
pub open spec fn passing_reports(order: Seq<Seq<char>>) -> Seq<(Seq<char>, Seq<ErrorEntry>)> {
    order.map_values(|k: Seq<char>| (k, Seq::<ErrorEntry>::empty()))
}

proof fn lemma_passing_prefix(registered: Set<Seq<char>>, order: Seq<Seq<char>>, i: int)
    requires
        order.no_duplicates(),
        order.to_set() == registered,
        0 <= i < order.len(),
    ensures
        ({
            let st = replay(
                Map::empty(),
                true,
                passing_reports(order).take(i),
                registered,
            );
            &&& st.0.dom() == order.take(i).to_set()
            &&& all_clear(st.0)
            &&& st.1
            &&& st.2 == 0
        }),
    decreases i,
{
    let reports = passing_reports(order);
    if i == 0 {
        assert(reports.take(0) =~= Seq::<(Seq<char>, Seq<ErrorEntry>)>::empty());
        assert(order.take(0).to_set() =~= Set::<Seq<char>>::empty());
    } else {
        lemma_passing_prefix(registered, order, i - 1);
        assert(reports.take(i).drop_last() =~= reports.take(i - 1));
        let before = replay(Map::empty(), true, reports.take(i - 1), registered);
        let k = order[i - 1];
        assert(reports.take(i).last() == (k, Seq::<ErrorEntry>::empty()));
        let next = before.0.insert(k, Seq::<ErrorEntry>::empty());
        assert(order.take(i) =~= order.take(i - 1).push(k));
        order.take(i - 1).lemma_push_to_set_commute(k);
        assert(next.dom() =~= order.take(i).to_set());
        let last = order[order.len() - 1];
        assert(registered.contains(last));
        assert(!next.dom().contains(last)) by {
            if order.take(i).contains(last) {
                let j = choose|j: int| 0 <= j < i && order.take(i)[j] == last;
                assert(order[j] == order[order.len() - 1]);
            }
        }
        assert(!registered.subset_of(next.dom()));
    }
}

/// A validation pass begins on a form whose registered fields are
/// `registered`, each reports once, without error, in the order `order`:
/// the form ends the pass exactly once, at the last report, and then no
/// field has an error, so the submission succeeds.
pub proof fn lemma_passing_fields_submit_once(registered: Set<Seq<char>>, order: Seq<Seq<char>>)
    requires
        order.no_duplicates(),
        order.to_set() == registered,
        order.len() > 0,
    ensures
        forall|i: int|
            0 <= i < order.len() ==> {
                let st = #[trigger] replay(
                    Map::empty(),
                    true,
                    passing_reports(order).take(i),
                    registered,
                );
                st.1 && st.2 == 0
            },
        ({
            let st = replay(Map::empty(), true, passing_reports(order), registered);
            &&& st.2 == 1
            &&& !st.1
            &&& all_clear(st.0)
            &&& st.0.dom() == registered
        }),
{
    let reports = passing_reports(order);
    let n = order.len() as int;
    assert forall|i: int| 0 <= i < order.len() implies {
        let st = #[trigger] replay(Map::empty(), true, passing_reports(order).take(i), registered);
        st.1 && st.2 == 0
    } by {
        lemma_passing_prefix(registered, order, i);
    }
    lemma_passing_prefix(registered, order, n - 1);
    assert(reports.take(n) =~= reports);
    assert(reports.drop_last() =~= reports.take(n - 1));
    let before = replay(Map::empty(), true, reports.take(n - 1), registered);
    let k = order[n - 1];
    let next = before.0.insert(k, Seq::<ErrorEntry>::empty());
    assert(order.take(n) =~= order.take(n - 1).push(k));
    assert(order.take(n) =~= order);
    order.take(n - 1).lemma_push_to_set_commute(k);
    assert(next.dom() =~= registered);
}

proof fn lemma_aggregate_split(entries: Seq<(String, ValidationErrors<String>)>, j: int)
    requires
        0 <= j <= entries.len(),
    ensures
        aggregate(entries) == aggregate(entries.take(j)) + aggregate(
            entries.subrange(j, entries.len() as int),
        ),
    decreases entries.len(),
{
    if j == entries.len() {
        assert(entries.take(j) =~= entries);
        assert(entries.subrange(j, entries.len() as int) =~= Seq::<
            (String, ValidationErrors<String>),
        >::empty());
        assert(aggregate(entries) + Seq::<ErrorEntry>::empty() =~= aggregate(entries));
    } else {
        let init = entries.drop_last();
        lemma_aggregate_split(init, j);
        assert(init.take(j) =~= entries.take(j));
        assert(entries.subrange(j, entries.len() as int).drop_last() =~= init.subrange(
            j,
            init.len() as int,
        ));
        assert(aggregate(entries) =~= aggregate(entries.take(j)) + aggregate(
            entries.subrange(j, entries.len() as int),
        ));
    }
}

/// The form's state: the result of each field that has reported, and
/// whether a validation pass is under way.
pub struct Form {
    validation_errors: KeyedList<ValidationErrors<String>>,
    validating: bool,
}

impl Form {
    pub open spec fn wf(&self) -> bool {
        self.results().wf()
    }

    pub closed spec fn results(&self) -> KeyedList<ValidationErrors<String>> {
        self.validation_errors
    }

    /// The errors that each field reported, by key.
    pub open spec fn error_map(&self) -> Map<Seq<char>, Seq<ErrorEntry>> {
        self.results().map().map_values(|e: ValidationErrors<String>| error_list(e))
    }

    /// All reported errors, one field after another.
    pub open spec fn all_errors(&self) -> Seq<ErrorEntry> {
        aggregate(self.results().entries())
    }

    pub closed spec fn is_validating(&self) -> bool {
        self.validating
    }

    pub fn new() -> (r: Self)
        ensures
            r.wf(),
            r.error_map() == Map::<Seq<char>, Seq<ErrorEntry>>::empty(),
            !r.is_validating(),
    {
        let r = Form { validation_errors: KeyedList::new(), validating: false };
        assert(r.error_map() =~= Map::<Seq<char>, Seq<ErrorEntry>>::empty());
        r
    }

    pub fn validating(&self) -> (r: bool)
        ensures
            r == self.is_validating(),
    {
        self.validating
    }

    /// The result that field `key` reported, if it has reported.
    pub fn reported(&self, key: &String) -> (r: Option<&ValidationErrors<String>>)
        requires
            self.wf(),
        ensures
            r is None <==> !self.error_map().contains_key(key@),
            r matches Some(e) ==> error_list(*e) == self.error_map()[key@],
    {
        self.validation_errors.get(key)
    }

    /// All reported errors in one collection, one field after another.
    pub fn validation_errors(&self) -> (r: ValidationErrors<String>)
        ensures
            error_list(r) == self.all_errors(),
    {
        let entries = self.validation_errors.as_vec();
        let mut errors = no_errors();
        let mut i: usize = 0;
        while i < entries.len()
            invariant
                entries@ == self.results().entries(),
                i <= entries.len(),
                error_list(errors) == aggregate(entries@.take(i as int)),
            decreases entries.len() - i,
        {
            append_errors(&mut errors, copy_errors(&entries[i].1));
            assert(entries@.take(i + 1).drop_last() =~= entries@.take(i as int));
            i += 1;
        }
        assert(entries@.take(i as int) =~= entries@);
        errors
    }

    /// Whether every field registered in `link` has reported.
    pub fn all_validated<F, L>(&self, link: &FormFieldLink<F, L>) -> (r: bool)
        requires
            self.wf(),
            link.wf(),
        ensures
            r == link.keys().subset_of(self.error_map().dom()),
    {
        let keys = link.registered_fields();
        let ghost kv = keys@.map_values(|s: String| s@);
        let mut i: usize = 0;
        while i < keys.len()
            invariant
                self.wf(),
                kv == keys@.map_values(|s: String| s@),
                kv.to_set() == link.keys(),
                i <= keys.len(),
                forall|j: int| 0 <= j < i ==> self.error_map().contains_key(#[trigger] kv[j]),
            decreases keys.len() - i,
        {
            if !self.validation_errors.contains_key(&keys[i]) {
                assert(link.keys().contains(kv[i as int]));
                return false;
            }
            i += 1;
        }
        assert forall|k: Seq<char>| link.keys().contains(k) implies self.error_map().contains_key(
            k,
        ) by {
            assert(kv.contains(k));
        }
        true
    }

    /// Ends a submission: success when no reported field has an error,
    /// else every reported error.
    fn submission(&self) -> (r: FormAction)
        requires
            self.wf(),
        ensures
            is_submission(r, self.error_map(), self.all_errors()),
    {
        let errors = self.validation_errors();
        proof {
            lemma_aggregate_empty(self.results().entries());
        }
        if has_no_errors(&errors) {
            FormAction::Submitted(Ok(()))
        } else {
            FormAction::Submitted(Err(errors))
        }
    }

    /// Handles `msg`: returns whether the view is to be redrawn, and what the
    /// host is to do, in order. The fields registered in `link` are the ones
    /// that a validation pass waits for.
    pub fn update<F, L>(&mut self, msg: FormMsg, link: &FormFieldLink<F, L>) -> (r: (
        bool,
        Vec<FormAction>,
    ))
        requires
            old(self).wf(),
            link.wf(),
        ensures
            final(self).wf(),
            match msg {
                FormMsg::FieldValueUpdate(_) => {
                    &&& r.0
                    &&& r.1@.len() == 0
                    &&& *final(self) == *old(self)
                },
                FormMsg::ValidateThenSubmit => {
                    &&& !r.0
                    &&& r.1@.len() == 2
                    &&& r.1@[0] is ValidationStarted
                    &&& r.1@[1] == FormAction::SendAllFields(FieldMsg::Validate)
                    &&& final(self).error_map() == Map::<Seq<char>, Seq<ErrorEntry>>::empty()
                    &&& final(self).is_validating()
                },
                FormMsg::Submit => {
                    &&& r.0
                    &&& r.1@.len() == 1
                    &&& is_submission(r.1@[0], old(self).error_map(), old(self).all_errors())
                    &&& *final(self) == *old(self)
                },
                FormMsg::FieldValidationUpdate(key, errors) => {
                    let (next, still, done) = report_step(
                        old(self).error_map(),
                        old(self).is_validating(),
                        key@,
                        error_list(errors),
                        link.keys(),
                    );
                    &&& r.0
                    &&& final(self).error_map() == next
                    &&& final(self).is_validating() == still
                    &&& r.1@.len() == if done {
                        2int
                    } else {
                        1int
                    }
                    &&& r.1@[0] matches FormAction::ValidationUpdated(e) && error_list(e)
                        == final(self).all_errors()
                    &&& done ==> is_submission(
                        r.1@[1],
                        final(self).error_map(),
                        final(self).all_errors(),
                    )
                },
                FormMsg::Cancel => {
                    &&& r.0
                    &&& r.1@.len() == 1
                    &&& r.1@[0] is Cancelled
                    &&& *final(self) == *old(self)
                },
                FormMsg::Ignore => {
                    &&& !r.0
                    &&& r.1@.len() == 0
                    &&& *final(self) == *old(self)
                },
            },
    {
        let mut actions: Vec<FormAction> = Vec::new();
        match msg {
            FormMsg::FieldValueUpdate(_) => (true, actions),
            FormMsg::ValidateThenSubmit => {
                actions.push(FormAction::ValidationStarted);
                self.validation_errors.clear();
                self.validating = true;
                actions.push(FormAction::SendAllFields(FieldMsg::Validate));
                assert(self.error_map() =~= Map::<Seq<char>, Seq<ErrorEntry>>::empty());
                (false, actions)
            },
            FormMsg::Submit => {
                actions.push(self.submission());
                (true, actions)
            },
            FormMsg::FieldValidationUpdate(key, errors) => {
                let ghost before = self.error_map();
                let ghost k = key@;
                let ghost es = error_list(errors);
                self.validation_errors.insert(key, errors);
                assert(self.error_map() =~= before.insert(k, es));
                actions.push(FormAction::ValidationUpdated(self.validation_errors()));
                if self.validating && self.all_validated(link) {
                    self.validating = false;
                    actions.push(self.submission());
                }
                (true, actions)
            },
            FormMsg::Cancel => {
                actions.push(FormAction::Cancelled);
                (true, actions)
            },
            FormMsg::Ignore => (false, actions),
        }
    }
}


/// When a field has reported errors, the form's submission fails, and those
/// errors stand in it together and in their order.
pub proof fn lemma_failed_field_in_submission(form: Form, key: Seq<char>)
    requires
        form.wf(),
        form.error_map().contains_key(key),
        form.error_map()[key].len() > 0,
    ensures
        !all_clear(form.error_map()),
        exists|off: int|
            0 <= off && off + form.error_map()[key].len() <= form.all_errors().len()
                && #[trigger] form.all_errors().subrange(off, off + form.error_map()[key].len())
                == form.error_map()[key],
{
    let entries = form.results().entries();
    lemma_map_of_dom(entries);
    let ks = keys_of(entries);
    assert(ks.contains(key));
    let i = choose|i: int| 0 <= i < ks.len() && ks[i] == key;
    lemma_map_of_index(entries, i);
    let es = error_list(entries[i].1);
    assert(form.error_map()[key] == es);
    lemma_aggregate_split(entries, i + 1);
    assert(entries.take(i + 1).drop_last() =~= entries.take(i));
    let off = aggregate(entries.take(i)).len() as int;
    let all = form.all_errors();
    assert(all =~= aggregate(entries.take(i)) + es + aggregate(
        entries.subrange(i + 1, entries.len() as int),
    ));
    assert(all.subrange(off, off + es.len()) =~= es);
}

} // verus!
