//! The mathematics of argument binding: what a signature declares, what one call binds, and
//! how each failure reads.

use vstd::prelude::*;

use crate::err::ExceptionKind;
use crate::err::PyErrView;
use crate::text::decimal;

verus! {

/// A keyword-only parameter: its name, and whether a call must supply it.
pub struct KeywordOnlyParameter {
    pub name: Seq<char>,
    pub required: bool,
}

/// A parameter signature: the positional parameters in declared order, of which a prefix can
/// only be passed by position and a prefix must be passed; the keyword-only parameters in
/// declared order; and whether surplus arguments of either sort are collected.
pub struct Signature {
    pub cls_name: Option<Seq<char>>,
    pub func_name: Seq<char>,
    pub positional: Seq<Seq<char>>,
    pub positional_only: nat,
    pub required_positional: nat,
    pub keyword_only: Seq<KeywordOnlyParameter>,
    pub accept_varargs: bool,
    pub accept_varkeywords: bool,
}

/// What becomes of a keyword that names no parameter.
#[derive(Clone, Copy, Debug, PartialEq, Eq, Structural)]
pub enum SurplusKeywords {
    /// It fails the call.
    Reject,
    /// It is collected. A name that was collected before keeps its place and takes the new
    /// value.
    Collect,
    /// It is collected. A name that was collected before fails the call.
    CollectUnique,
}

/// The ways in which a call can fail to fit a signature.
pub enum BindingError {
    /// More positional arguments than positional parameters, and no place to collect them.
    TooManyPositional { given: nat },
    /// A parameter was passed by position and again by keyword, or a collected keyword was
    /// passed twice where that is not allowed.
    MultipleValues { name: Seq<char> },
    /// A keyword that names no parameter, and no place to collect it.
    UnexpectedKeyword { name: Seq<char> },
    /// Positional-only parameters were passed by keyword.
    PositionalOnlyAsKeyword { names: Seq<Seq<char>> },
    /// Required positional parameters were left without a value.
    MissingRequiredPositional { names: Seq<Seq<char>> },
    /// Required keyword-only parameters were left without a value.
    MissingRequiredKeyword { names: Seq<Seq<char>> },
}

/// The surplus of a call that fitted: the positional arguments beyond the declared ones, where
/// the signature collects them, and the keywords that name no parameter, where it collects
/// those and there was at least one.
pub struct Surplus<V> {
    pub varargs: Option<Seq<V>>,
    pub varkeywords: Option<Seq<(Seq<char>, V)>>,
}

/// What one call leaves behind: the slots as they then stand, and either the surplus or the
/// failure.
pub struct Binding<V> {
    pub slots: Seq<Option<V>>,
    pub result: Result<Surplus<V>, BindingError>,
}

/// The state of the walk over the keyword arguments of one call.
pub struct KeywordScan<V> {
    /// The slots as filled so far.
    pub slots: Seq<Option<V>>,
    /// The keywords collected so far that name no parameter.
    pub extras: Option<Seq<(Seq<char>, V)>>,
    /// The positional-only parameters that were named by a keyword so far.
    pub violations: Seq<Seq<char>>,
    /// The failure that ended the walk, if one did.
    pub failure: Option<BindingError>,
}

/// A name between single quotes.
pub open spec fn quoted(name: Seq<char>) -> Seq<char> {
    "'"@ + name + "'"@
}

/// What stands between item `i - 1` and item `i` of a rendered list of `len` names: nothing
/// before the first, `" and "` between the two of a pair, and in longer lists a comma after
/// every item, with `and` before the last.
pub open spec fn list_separator(i: int, len: int) -> Seq<char> {
    if i == 0 {
        Seq::empty()
    } else if len == 2 {
        " and "@
    } else if i == len - 1 {
        ", and "@
    } else {
        ", "@
    }
}

/// The rendering of the first `n` of `names`, as part of the list of all of them.
pub open spec fn parameter_list_prefix(names: Seq<Seq<char>>, n: nat) -> Seq<char>
    decreases n,
{
    if n == 0 {
        Seq::empty()
    } else {
        parameter_list_prefix(names, (n - 1) as nat) + list_separator(
            n - 1,
            names.len() as int,
        ) + quoted(names[n - 1])
    }
}

/// A list of parameter names as an error message shows it: `'a'`, `'a' and 'b'`,
/// `'a', 'b', and 'c'`.
pub open spec fn parameter_list(names: Seq<Seq<char>>) -> Seq<char> {
    parameter_list_prefix(names, names.len())
}

/// The names of the entries of a keyword collection, in order.
pub open spec fn entry_names<V>(entries: Seq<(Seq<char>, V)>) -> Seq<Seq<char>> {
    Seq::new(entries.len(), |i: int| entries[i].0)
}

/// A keyword collection after `name` was set to `value`: an entry of that name keeps its place
/// and takes the new value, a new name goes to the end.
pub open spec fn dict_set<V>(entries: Seq<(Seq<char>, V)>, name: Seq<char>, value: V) -> Seq<
    (Seq<char>, V),
> {
    match entry_names(entries).index_of_first(name) {
        Some(i) => entries.update(i, (name, value)),
        None => entries.push((name, value)),
    }
}

/// The slots after the first `n` positional arguments were copied into the first `n` of them.
pub open spec fn fill_positional<V>(slots: Seq<Option<V>>, args: Seq<V>, n: nat) -> Seq<
    Option<V>,
> {
    Seq::new(
        slots.len(),
        |i: int|
            if i < n {
                Some(args[i])
            } else {
                slots[i]
            },
    )
}

impl Signature {
    /// The positional-only and the required parameters are prefixes of the positional ones.
    pub open spec fn wf(self) -> bool {
        &&& self.positional_only <= self.positional.len()
        &&& self.required_positional <= self.positional.len()
    }

    /// The number of slots of one call: one for each parameter.
    pub open spec fn slot_count(self) -> nat {
        self.positional.len() + self.keyword_only.len()
    }

    /// The names of the keyword-only parameters, in declared order.
    pub open spec fn keyword_only_names(self) -> Seq<Seq<char>> {
        Seq::new(self.keyword_only.len(), |i: int| self.keyword_only[i].name)
    }

    /// The name that diagnostics give the callable: `Class.method()` or `function()`.
    pub open spec fn full_name(self) -> Seq<char> {
        match self.cls_name {
            Some(cls_name) => cls_name + "."@ + self.func_name + "()"@,
            None => self.func_name + "()"@,
        }
    }

    /// Whether a call with `given` positional arguments has more of them than the signature
    /// can take.
    pub open spec fn too_many_positional(self, given: nat) -> bool {
        !self.accept_varargs && given > self.positional.len()
    }

    /// The number of positional arguments that go to positional parameters.
    pub open spec fn consumed(self, given: nat) -> nat {
        if given <= self.positional.len() {
            given
        } else {
            self.positional.len()
        }
    }

    /// What becomes of the keywords of a call that name no parameter: they are collected
    /// where the signature accepts them, and fail the call where it does not.
    pub open spec fn surplus_keywords(self) -> SurplusKeywords {
        if self.accept_varkeywords {
            SurplusKeywords::Collect
        } else {
            SurplusKeywords::Reject
        }
    }

    /// The walk one keyword further. A failed walk stays as it is. A keyword that names a
    /// keyword-only parameter fills its slot, whatever the slot held. One that names a
    /// positional-only parameter is noted and binds nothing. One that names another
    /// positional parameter fills its slot, and fails the walk if the slot was filled. One
    /// that names no parameter is collected or fails the walk, as `surplus` says.
    pub open spec fn keyword_step<V>(
        self,
        surplus: SurplusKeywords,
        scan: KeywordScan<V>,
        name: Seq<char>,
        value: V,
    ) -> KeywordScan<V> {
        if scan.failure is Some {
            scan
        } else {
            match self.keyword_only_names().index_of_first(name) {
                Some(k) => KeywordScan {
                    slots: scan.slots.update(self.positional.len() + k, Some(value)),
                    ..scan
                },
                None => match self.positional.index_of_first(name) {
                    Some(i) => if i < self.positional_only {
                        KeywordScan {
                            violations: scan.violations.push(self.positional[i]),
                            ..scan
                        }
                    } else if scan.slots[i] is Some {
                        KeywordScan {
                            slots: scan.slots.update(i, Some(value)),
                            failure: Some(
                                BindingError::MultipleValues { name: self.positional[i] },
                            ),
                            ..scan
                        }
                    } else {
                        KeywordScan { slots: scan.slots.update(i, Some(value)), ..scan }
                    },
                    None => {
                        let entries = match scan.extras {
                            Some(entries) => entries,
                            None => Seq::empty(),
                        };
                        match surplus {
                            SurplusKeywords::Reject => KeywordScan {
                                failure: Some(BindingError::UnexpectedKeyword { name }),
                                ..scan
                            },
                            SurplusKeywords::Collect => KeywordScan {
                                extras: Some(dict_set(entries, name, value)),
                                ..scan
                            },
                            SurplusKeywords::CollectUnique => if entry_names(entries).contains(
                                name,
                            ) {
                                KeywordScan {
                                    failure: Some(BindingError::MultipleValues { name }),
                                    ..scan
                                }
                            } else {
                                KeywordScan { extras: Some(entries.push((name, value))), ..scan }
                            },
                        }
                    },
                },
            }
        }
    }

    /// The walk over all of `kwargs`, in order, from `start`.
    pub open spec fn keyword_scan<V>(
        self,
        surplus: SurplusKeywords,
        kwargs: Seq<(Seq<char>, V)>,
        start: KeywordScan<V>,
    ) -> KeywordScan<V>
        decreases kwargs.len(),
    {
        if kwargs.len() == 0 {
            start
        } else {
            self.keyword_step(
                surplus,
                self.keyword_scan(surplus, kwargs.drop_last(), start),
                kwargs.last().0,
                kwargs.last().1,
            )
        }
    }

    /// The names of those among the first `n` positional parameters whose slot is empty, in
    /// declared order.
    pub open spec fn empty_positional<V>(self, slots: Seq<Option<V>>, n: nat) -> Seq<Seq<char>>
        decreases n,
    {
        if n == 0 {
            Seq::empty()
        } else if slots[n - 1] is None {
            self.empty_positional(slots, (n - 1) as nat).push(self.positional[n - 1])
        } else {
            self.empty_positional(slots, (n - 1) as nat)
        }
    }

    /// The names of those among the first `n` keyword-only parameters that are required and
    /// whose slot is empty, in declared order.
    pub open spec fn empty_required_keyword<V>(self, slots: Seq<Option<V>>, n: nat) -> Seq<
        Seq<char>,
    >
        decreases n,
    {
        if n == 0 {
            Seq::empty()
        } else if self.keyword_only[n - 1].required && slots[self.positional.len() + n - 1]
            is None {
            self.empty_required_keyword(slots, (n - 1) as nat).push(
                self.keyword_only[n - 1].name,
            )
        } else {
            self.empty_required_keyword(slots, (n - 1) as nat)
        }
    }

    /// The required positional parameters that `slots` leaves without a value.
    pub open spec fn missing_positional<V>(self, slots: Seq<Option<V>>) -> Seq<Seq<char>> {
        self.empty_positional(slots, self.required_positional)
    }

    /// The required keyword-only parameters that `slots` leaves without a value.
    pub open spec fn missing_keyword<V>(self, slots: Seq<Option<V>>) -> Seq<Seq<char>> {
        self.empty_required_keyword(slots, self.keyword_only.len())
    }

    /// What the walk over the keywords comes to: its failure, else the positional-only
    /// parameters that were passed by keyword, all of them at once.
    pub open spec fn keyword_failure<V>(self, scan: KeywordScan<V>) -> Option<BindingError> {
        if scan.failure is Some {
            scan.failure
        } else if scan.violations.len() > 0 {
            Some(BindingError::PositionalOnlyAsKeyword { names: scan.violations })
        } else {
            None
        }
    }

    /// What the slots come to once every argument is placed: the required positional
    /// parameters left empty, all of them at once; else the required keyword-only
    /// parameters left empty, all of them at once.
    pub open spec fn missing<V>(self, slots: Seq<Option<V>>) -> Option<BindingError> {
        if self.missing_positional(slots).len() > 0 {
            Some(
                BindingError::MissingRequiredPositional { names: self.missing_positional(slots) },
            )
        } else if self.missing_keyword(slots).len() > 0 {
            Some(BindingError::MissingRequiredKeyword { names: self.missing_keyword(slots) })
        } else {
            None
        }
    }

    /// The binding of one call: `args` by position, then `kwargs` by name, into `slots`.
    ///
    /// Too many positional arguments fail the call before anything is placed. Otherwise the
    /// positional arguments fill the leading slots and the keywords are walked in order; the
    /// walk's failure, the positional-only parameters passed by keyword, the missing required
    /// positional and the missing required keyword-only parameters fail the call, in that
    /// order of precedence.
    pub open spec fn bind<V>(
        self,
        args: Seq<V>,
        kwargs: Seq<(Seq<char>, V)>,
        slots: Seq<Option<V>>,
    ) -> Binding<V> {
        if self.too_many_positional(args.len()) {
            Binding {
                slots,
                result: Err(BindingError::TooManyPositional { given: args.len() }),
            }
        } else {
            let consumed = self.consumed(args.len());
            let scan = self.keyword_scan(
                self.surplus_keywords(),
                kwargs,
                KeywordScan {
                    slots: fill_positional(slots, args, consumed),
                    extras: None,
                    violations: Seq::empty(),
                    failure: None,
                },
            );
            let result = match self.keyword_failure(scan) {
                Some(e) => Err(e),
                None => match self.missing(scan.slots) {
                    Some(e) => Err(e),
                    None => Ok(
                        Surplus {
                            varargs: if self.accept_varargs {
                                Some(args.subrange(consumed as int, args.len() as int))
                            } else {
                                None
                            },
                            varkeywords: scan.extras,
                        },
                    ),
                },
            };
            Binding { slots: scan.slots, result }
        }
    }

    /// The message for a call with too many positional arguments.
    pub open spec fn too_many_positional_message(self, given: nat) -> Seq<char> {
        let was = if given == 1 {
            "was"@
        } else {
            "were"@
        };
        if self.required_positional != self.positional.len() {
            self.full_name() + " takes from "@ + decimal(self.required_positional) + " to "@
                + decimal(self.positional.len()) + " positional arguments but "@ + decimal(given)
                + " "@ + was + " given"@
        } else {
            self.full_name() + " takes "@ + decimal(self.positional.len())
                + " positional arguments but "@ + decimal(given) + " "@ + was + " given"@
        }
    }

    /// The message for a parameter that got more than one value.
    pub open spec fn multiple_values_message(self, name: Seq<char>) -> Seq<char> {
        self.full_name() + " got multiple values for argument '"@ + name + "'"@
    }

    /// The message for a keyword that names no parameter.
    pub open spec fn unexpected_keyword_message(self, name: Seq<char>) -> Seq<char> {
        self.full_name() + " got an unexpected keyword argument '"@ + name + "'"@
    }

    /// The message for positional-only parameters passed by keyword.
    pub open spec fn positional_only_keyword_message(self, names: Seq<Seq<char>>) -> Seq<char> {
        self.full_name() + " got some positional-only arguments passed as keyword arguments: "@
            + parameter_list(names)
    }

    /// The message for required parameters of one sort (`positional`, `keyword`) left without
    /// a value.
    pub open spec fn missing_required_message(self, sort: Seq<char>, names: Seq<Seq<char>>)
        -> Seq<char> {
        let arguments = if names.len() == 1 {
            "argument"@
        } else {
            "arguments"@
        };
        self.full_name() + " missing "@ + decimal(names.len()) + " required "@ + sort + " "@
            + arguments + ": "@ + parameter_list(names)
    }

    /// The message of each failure.
    pub open spec fn message(self, e: BindingError) -> Seq<char> {
        match e {
            BindingError::TooManyPositional { given } => self.too_many_positional_message(given),
            BindingError::MultipleValues { name } => self.multiple_values_message(name),
            BindingError::UnexpectedKeyword { name } => self.unexpected_keyword_message(name),
            BindingError::PositionalOnlyAsKeyword { names } => {
                self.positional_only_keyword_message(names)
            },
            BindingError::MissingRequiredPositional { names } => {
                self.missing_required_message("positional"@, names)
            },
            BindingError::MissingRequiredKeyword { names } => {
                self.missing_required_message("keyword"@, names)
            },
        }
    }

    /// The host-visible error of each failure: a type error with the failure's message.
    pub open spec fn error(self, e: BindingError) -> PyErrView {
        PyErrView { kind: ExceptionKind::TypeError, message: self.message(e) }
    }
}

} // verus!
