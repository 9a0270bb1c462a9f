//! The argument binding engine: matching the arguments of one call against the declared
//! parameters of a callable.

use vstd::prelude::*;
use vstd::string::*;

use crate::binding_laws::lemma_failed_scan_stays;
use crate::binding_laws::scan_start;
use crate::err::ExceptionKind;
use crate::err::PyErr;
use crate::err::PyErrView;
use crate::err::PyResult;
use crate::python::PyModule;
use crate::python::Python;
use crate::signature::dict_set;
use crate::signature::entry_names;
use crate::signature::fill_positional;
use crate::signature::list_separator;
use crate::signature::parameter_list;
use crate::signature::parameter_list_prefix;
use crate::signature::BindingError;
use crate::signature::KeywordOnlyParameter;
use crate::signature::KeywordScan;
use crate::signature::Signature;
use crate::signature::Surplus;
use crate::signature::SurplusKeywords;
use crate::text::push_decimal;
use crate::text::str_eq;

verus! {

/// One keyword-only parameter: its name, and whether a call must supply it.
#[derive(Debug)]
pub struct KeywordOnlyParameterDescription {
    pub name: &'static str,
    pub required: bool,
}

/// The declared parameters of a function or method.
#[derive(Debug)]
pub struct FunctionDescription {
    pub cls_name: Option<&'static str>,
    pub func_name: &'static str,
    pub positional_parameter_names: &'static [&'static str],
    pub positional_only_parameters: usize,
    pub required_positional_parameters: usize,
    pub keyword_only_parameters: &'static [KeywordOnlyParameterDescription],
    pub accept_varargs: bool,
    pub accept_varkeywords: bool,
}

/// The texts of a sequence of string slices.
pub open spec fn texts(names: Seq<&str>) -> Seq<Seq<char>> {
    Seq::new(names.len(), |i: int| names[i]@)
}

impl View for KeywordOnlyParameterDescription {
    type V = KeywordOnlyParameter;

    open spec fn view(&self) -> KeywordOnlyParameter {
        KeywordOnlyParameter { name: self.name@, required: self.required }
    }
}

impl View for FunctionDescription {
    type V = Signature;

    open spec fn view(&self) -> Signature {
        Signature {
            cls_name: match self.cls_name {
                Some(cls_name) => Some(cls_name@),
                None => None,
            },
            func_name: self.func_name@,
            positional: texts(self.positional_parameter_names@),
            positional_only: self.positional_only_parameters as nat,
            required_positional: self.required_positional_parameters as nat,
            keyword_only: Seq::new(
                self.keyword_only_parameters@.len(),
                |i: int| self.keyword_only_parameters@[i]@,
            ),
            accept_varargs: self.accept_varargs,
            accept_varkeywords: self.accept_varkeywords,
        }
    }
}

/// Appends the rendering of `parameter_names` to `msg`.
pub fn push_parameter_list(msg: &mut String, parameter_names: &[&str])
    ensures
        final(msg)@ == old(msg)@ + parameter_list(texts(parameter_names@)),
{
    let ghost names = texts(parameter_names@);
    let len = parameter_names.len();
    let mut i: usize = 0;
    while i < len
        invariant
            i <= len,
            len == parameter_names@.len(),
            names == texts(parameter_names@),
            msg@ == old(msg)@ + parameter_list_prefix(names, i as nat),
        decreases len - i,
    {
        let ghost before = msg@;
        if i != 0 {
            if len == 2 {
                msg.append(" and ");
            } else if i == len - 1 {
                msg.append(", and ");
            } else {
                msg.append(", ");
            }
        }
        assert(msg@ =~= before + list_separator(i as int, len as int));
        msg.append("'");
        msg.append(parameter_names[i]);
        msg.append("'");
        assert(msg@ =~= old(msg)@ + parameter_list_prefix(names, (i + 1) as nat));
        i += 1;
    }
}

impl FunctionDescription {
    /// The name that diagnostics give the callable: `Class.method()` or `function()`.
    pub fn full_name(&self) -> (name: String)
        ensures
            name@ == self@.full_name(),
    {
        match self.cls_name {
            Some(cls_name) => {
                let mut name = String::from_str(cls_name);
                name.append(".");
                name.append(self.func_name);
                name.append("()");
                name
            },
            None => {
                let mut name = String::from_str(self.func_name);
                name.append("()");
                name
            },
        }
    }

    /// The error for a call with `args_provided` positional arguments, which is more than the
    /// callable takes. It tells how many the callable takes: one number, or a range where
    /// some positional parameters are optional.
    pub fn too_many_positional_arguments(&self, args_provided: usize) -> (e: PyErr)
        ensures
            e@ == self@.error(BindingError::TooManyPositional { given: args_provided as nat }),
    {
        let was = if args_provided == 1 {
            "was"
        } else {
            "were"
        };
        let mut msg = self.full_name();
        if self.required_positional_parameters != self.positional_parameter_names.len() {
            msg.append(" takes from ");
            push_decimal(&mut msg, self.required_positional_parameters);
            msg.append(" to ");
            push_decimal(&mut msg, self.positional_parameter_names.len());
        } else {
            msg.append(" takes ");
            push_decimal(&mut msg, self.positional_parameter_names.len());
        }
        msg.append(" positional arguments but ");
        push_decimal(&mut msg, args_provided);
        msg.append(" ");
        msg.append(was);
        msg.append(" given");
        PyErr::type_error(msg)
    }

    /// The error for a parameter that was passed by position and again by keyword.
    pub fn multiple_values_for_argument(&self, argument: &str) -> (e: PyErr)
        ensures
            e@ == self@.error(BindingError::MultipleValues { name: argument@ }),
    {
        let mut msg = self.full_name();
        msg.append(" got multiple values for argument '");
        msg.append(argument);
        msg.append("'");
        PyErr::type_error(msg)
    }

    /// The error for a keyword that names no parameter.
    pub fn unexpected_keyword_argument(&self, argument: &str) -> (e: PyErr)
        ensures
            e@ == self@.error(BindingError::UnexpectedKeyword { name: argument@ }),
    {
        let mut msg = self.full_name();
        msg.append(" got an unexpected keyword argument '");
        msg.append(argument);
        msg.append("'");
        PyErr::type_error(msg)
    }

    /// The error for positional-only parameters that were passed by keyword.
    pub fn positional_only_keyword_arguments(&self, parameter_names: &[&str]) -> (e: PyErr)
        ensures
            e@ == self@.error(
                BindingError::PositionalOnlyAsKeyword { names: texts(parameter_names@) },
            ),
    {
        let mut msg = self.full_name();
        msg.append(" got some positional-only arguments passed as keyword arguments: ");
        push_parameter_list(&mut msg, parameter_names);
        PyErr::type_error(msg)
    }

    /// The error for required parameters of one sort (`positional`, `keyword`) that the call
    /// left without a value.
    pub fn missing_required_arguments(&self, argument_type: &str, parameter_names: &[&str]) -> (e:
        PyErr)
        ensures
            e@ == (PyErrView {
                kind: ExceptionKind::TypeError,
                message: self@.missing_required_message(argument_type@, texts(parameter_names@)),
            }),
    {
        let arguments = if parameter_names.len() == 1 {
            "argument"
        } else {
            "arguments"
        };
        let mut msg = self.full_name();
        msg.append(" missing ");
        push_decimal(&mut msg, parameter_names.len());
        msg.append(" required ");
        msg.append(argument_type);
        msg.append(" ");
        msg.append(arguments);
        msg.append(": ");
        push_parameter_list(&mut msg, parameter_names);
        PyErr::type_error(msg)
    }
}

/// The keyword arguments of a call as mathematics: the text of each name, with its value.
pub open spec fn keywords<V>(kwargs: Seq<(&str, V)>) -> Seq<(Seq<char>, V)> {
    Seq::new(kwargs.len(), |i: int| (kwargs[i].0@, kwargs[i].1))
}

/// The keyword arguments of a call that may have none.
pub open spec fn keywords_or_none<V>(kwargs: Option<&[(&str, V)]>) -> Seq<(Seq<char>, V)> {
    match kwargs {
        Some(kwargs) => keywords(kwargs@),
        None => Seq::empty(),
    }
}

/// The surplus that a successful call hands back, as mathematics.
pub open spec fn surplus_of<V>(found: (Option<Vec<V>>, Option<Vec<(&str, V)>>)) -> Surplus<V> {
    Surplus {
        varargs: match found.0 {
            Some(varargs) => Some(varargs@),
            None => None,
        },
        varkeywords: match found.1 {
            Some(varkeywords) => Some(keywords(varkeywords@)),
            None => None,
        },
    }
}

/// The place of the first of `names` that reads `name`.
fn position(names: &[&str], name: &str) -> (found: Option<usize>)
    ensures
        match found {
            Some(i) => i < names@.len() && texts(names@).index_of_first(name@) == Some(i as int),
            None => texts(names@).index_of_first(name@) is None,
        },
{
    let mut i: usize = 0;
    while i < names.len()
        invariant
            i <= names.len(),
            forall|j: int| 0 <= j < i ==> texts(names@)[j] != name@,
        decreases names.len() - i,
    {
        if str_eq(names[i], name) {
            proof {
                assert(texts(names@)[i as int] == name@);
                texts(names@).index_of_first_ensures(name@);
            }
            return Some(i);
        }
        i += 1;
    }
    proof {
        texts(names@).index_of_first_ensures(name@);
    }
    None
}

/// The place of the first entry of a keyword collection that is called `name`.
fn entry_position<V: Copy>(entries: &Vec<(&str, V)>, name: &str) -> (found: Option<usize>)
    ensures
        match found {
            Some(i) => i < entries@.len() && entry_names(keywords(entries@)).contains(name@)
                && entry_names(keywords(entries@)).index_of_first(name@) == Some(i as int),
            None => !entry_names(keywords(entries@)).contains(name@) && entry_names(
                keywords(entries@),
            ).index_of_first(name@) is None,
        },
{
    let ghost names = entry_names(keywords(entries@));
    let mut i: usize = 0;
    while i < entries.len()
        invariant
            i <= entries.len(),
            names == entry_names(keywords(entries@)),
            forall|j: int| 0 <= j < i ==> names[j] != name@,
        decreases entries.len() - i,
    {
        if str_eq(entries[i].0, name) {
            proof {
                assert(names[i as int] == name@);
                names.index_of_first_ensures(name@);
            }
            return Some(i);
        }
        i += 1;
    }
    proof {
        names.index_of_first_ensures(name@);
    }
    None
}

/// Sets `name` to `value` in a keyword collection: an entry of that name keeps its place and
/// takes the new value, a new name goes to the end.
fn set_item<'a, V: Copy>(entries: &mut Vec<(&'a str, V)>, name: &'a str, value: V)
    ensures
        keywords(final(entries)@) == dict_set(keywords(old(entries)@), name@, value),
{
    match entry_position(entries, name) {
        Some(i) => {
            entries.set(i, (name, value));
            assert(keywords(entries@) =~= keywords(old(entries)@).update(
                i as int,
                (name@, value),
            ));
        },
        None => {
            entries.push((name, value));
            assert(keywords(entries@) =~= keywords(old(entries)@).push((name@, value)));
        },
    }
}

impl FunctionDescription {
    /// Binds the arguments of one call to the parameters of this callable.
    ///
    /// `output` holds one slot for each parameter: the positional ones in declared order, then
    /// the keyword-only ones in declared order. The positional arguments go to the leading
    /// slots, the keyword arguments to the slots of the parameters they name, and a slot that
    /// no argument reaches stays as it was. A call that fits hands back what it had beyond the
    /// parameters: the surplus positional arguments where the signature collects them, and the
    /// keywords that name no parameter where it collects those and there were any. A call
    /// that does not fit fails with a type error that names every offending parameter.
    pub fn extract_arguments<'a, V: Copy>(
        &self,
        _py: Python<'_>,
        args: &[V],
        kwargs: Option<&[(&'a str, V)]>,
        output: &mut [Option<V>],
    ) -> (found: PyResult<(Option<Vec<V>>, Option<Vec<(&'a str, V)>>)>)
        requires
            self@.wf(),
            old(output)@.len() == self@.slot_count(),
        ensures
            ({
                let binding = self@.bind(args@, keywords_or_none(kwargs), old(output)@);
                &&& final(output)@ == binding.slots
                &&& final(output)@.len() == old(output)@.len()
                &&& match found {
                    Ok(found) => binding.result == Ok::<Surplus<V>, BindingError>(surplus_of(found)),
                    Err(e) => binding.result is Err && e@ == self@.error(binding.result->Err_0),
                }
            }),
    {
        let ghost sig = self@;
        let num_positional = self.positional_parameter_names.len();
        let num_keyword_only = self.keyword_only_parameters.len();
        let num_slots = output.len();
        let given = args.len();

        let consumed = if given <= num_positional {
            given
        } else if self.accept_varargs {
            num_positional
        } else {
            return Err(self.too_many_positional_arguments(given));
        };

        let mut i: usize = 0;
        while i < consumed
            invariant
                i <= consumed <= given,
                consumed <= num_positional <= num_slots,
                given == args@.len(),
                num_slots == output@.len(),
                output@.len() == old(output)@.len(),
                output@ == fill_positional(old(output)@, args@, i as nat),
            decreases consumed - i,
        {
            output[i] = Some(args[i]);
            i += 1;
            assert(output@ =~= fill_positional(old(output)@, args@, i as nat));
        }

        let varargs = if self.accept_varargs {
            let mut rest: Vec<V> = Vec::new();
            let mut j: usize = consumed;
            while j < given
                invariant
                    consumed <= j <= given,
                    given == args@.len(),
                    rest@ == args@.subrange(consumed as int, j as int),
                decreases given - j,
            {
                rest.push(args[j]);
                j += 1;
                assert(rest@ =~= args@.subrange(consumed as int, j as int));
            }
            Some(rest)
        } else {
            None
        };

        let varkeywords = match kwargs {
            Some(kwargs) => match self.extract_keyword_arguments(
                kwargs,
                output,
                self.surplus_keywords(),
            ) {
                Ok(varkeywords) => varkeywords,
                Err(e) => {
                    return Err(e);
                },
            },
            None => None,
        };
        let ghost scan = sig.keyword_scan(
            sig.surplus_keywords(),
            keywords_or_none(kwargs),
            scan_start(fill_positional(old(output)@, args@, consumed as nat)),
        );
        assert(output@ == scan.slots);
        assert(sig.keyword_failure(scan) is None);

        let mut missing_positional: Vec<&'static str> = Vec::new();
        let mut p: usize = 0;
        while p < self.required_positional_parameters
            invariant
                p <= self.required_positional_parameters <= num_positional <= num_slots,
                sig == self@,
                num_positional == self.positional_parameter_names@.len(),
                num_slots == output@.len(),
                texts(missing_positional@) == sig.empty_positional(output@, p as nat),
            decreases self.required_positional_parameters - p,
        {
            if output[p].is_none() {
                let param = self.positional_parameter_names[p];
                assert(sig.positional[p as int] == param@);
                missing_positional.push(param);
            }
            p += 1;
            assert(texts(missing_positional@) =~= sig.empty_positional(output@, p as nat));
        }
        if missing_positional.len() != 0 {
            return Err(
                self.missing_required_arguments("positional", missing_positional.as_slice()),
            );
        }

        let mut missing_keyword_only: Vec<&'static str> = Vec::new();
        let mut k: usize = 0;
        while k < num_keyword_only
            invariant
                k <= num_keyword_only,
                sig == self@,
                num_keyword_only == self.keyword_only_parameters@.len(),
                num_positional == sig.positional.len(),
                num_positional + num_keyword_only == num_slots,
                num_slots == output@.len(),
                texts(missing_keyword_only@) == sig.empty_required_keyword(output@, k as nat),
            decreases num_keyword_only - k,
        {
            if self.keyword_only_parameters[k].required && output[num_positional + k].is_none() {
                missing_keyword_only.push(self.keyword_only_parameters[k].name);
            }
            k += 1;
            assert(texts(missing_keyword_only@) =~= sig.empty_required_keyword(
                output@,
                k as nat,
            ));
        }
        if missing_keyword_only.len() != 0 {
            return Err(
                self.missing_required_arguments("keyword", missing_keyword_only.as_slice()),
            );
        }

        Ok((varargs, varkeywords))
    }

    /// The place of the first keyword-only parameter that is called `name`.
    fn keyword_only_position(&self, name: &str) -> (found: Option<usize>)
        ensures
            match found {
                Some(k) => k < self.keyword_only_parameters@.len()
                    && self@.keyword_only_names().index_of_first(name@) == Some(k as int),
                None => self@.keyword_only_names().index_of_first(name@) is None,
            },
    {
        let ghost names = self@.keyword_only_names();
        let mut k: usize = 0;
        while k < self.keyword_only_parameters.len()
            invariant
                k <= self.keyword_only_parameters.len(),
                names == self@.keyword_only_names(),
                forall|j: int| 0 <= j < k ==> names[j] != name@,
            decreases self.keyword_only_parameters.len() - k,
        {
            if str_eq(self.keyword_only_parameters[k].name, name) {
                proof {
                    assert(names[k as int] == name@);
                    names.index_of_first_ensures(name@);
                }
                return Some(k);
            }
            k += 1;
        }
        proof {
            names.index_of_first_ensures(name@);
        }
        None
    }

    /// What becomes of the keywords of a call that name no parameter: they are collected
    /// where the signature accepts them, and fail the call where it does not.
    pub fn surplus_keywords(&self) -> (surplus: SurplusKeywords)
        ensures
            surplus == self@.surplus_keywords(),
    {
        if self.accept_varkeywords {
            SurplusKeywords::Collect
        } else {
            SurplusKeywords::Reject
        }
    }

    /// Places the keyword arguments of a call in `output`, in the order given.
    ///
    /// A keyword that names a keyword-only parameter fills that slot. One that names a
    /// positional parameter fills that slot, unless the parameter is positional-only, and
    /// fails the call at once if the slot was filled. One that names no parameter fails the
    /// call at once or is collected, as `surplus` says; where names have to be unique, a
    /// name that is collected twice fails the call at once. Positional-only parameters
    /// passed by keyword fail the call after the last keyword, all in one error. The
    /// collected keywords are handed back if there are any.
    pub fn extract_keyword_arguments<'a, V: Copy>(
        &self,
        kwargs: &[(&'a str, V)],
        output: &mut [Option<V>],
        surplus: SurplusKeywords,
    ) -> (found: PyResult<Option<Vec<(&'a str, V)>>>)
        requires
            self@.wf(),
            old(output)@.len() == self@.slot_count(),
        ensures
            ({
                let scan = self@.keyword_scan(
                    surplus,
                    keywords(kwargs@),
                    scan_start(old(output)@),
                );
                &&& final(output)@ == scan.slots
                &&& final(output)@.len() == old(output)@.len()
                &&& match found {
                    Ok(Some(varkeywords)) => self@.keyword_failure(scan) is None && scan.extras
                        == Some(keywords(varkeywords@)),
                    Ok(None) => self@.keyword_failure(scan) is None && scan.extras is None,
                    Err(e) => self@.keyword_failure(scan) is Some && e@ == self@.error(
                        self@.keyword_failure(scan)->0,
                    ),
                }
            }),
    {
        let ghost sig = self@;
        let ghost kws = keywords(kwargs@);
        let ghost start = scan_start(old(output)@);
        let num_positional = self.positional_parameter_names.len();
        let num_slots = output.len();
        let mut varkeywords: Vec<(&'a str, V)> = Vec::new();
        let mut any_varkeywords = false;
        let mut positional_only: Vec<&'static str> = Vec::new();
        let mut i: usize = 0;
        assert(kws.take(0) =~= Seq::empty());
        assert(texts(positional_only@) =~= Seq::empty());
        while i < kwargs.len()
            invariant
                i <= kwargs.len(),
                sig == self@,
                sig.wf(),
                kws == keywords(kwargs@),
                start == scan_start(old(output)@),
                num_slots == output@.len(),
                output@.len() == old(output)@.len(),
                num_positional == sig.positional.len(),
                self.keyword_only_parameters@.len() == sig.keyword_only.len(),
                output@.len() == sig.slot_count(),
                sig.keyword_scan(surplus, kws.take(i as int), start) == (KeywordScan {
                    slots: output@,
                    extras: if any_varkeywords {
                        Some(keywords(varkeywords@))
                    } else {
                        None
                    },
                    violations: texts(positional_only@),
                    failure: None,
                }),
                !any_varkeywords ==> varkeywords@.len() == 0,
            decreases kwargs.len() - i,
        {
            let (name, value) = kwargs[i];
            let ghost before = sig.keyword_scan(surplus, kws.take(i as int), start);
            proof {
                assert(kws.take(i + 1).drop_last() =~= kws.take(i as int));
                assert(kws.take(i + 1).last() == (name@, value));
                sig.keyword_only_names().index_of_first_ensures(name@);
                sig.positional.index_of_first_ensures(name@);
            }
            let ghost after = sig.keyword_step(surplus, before, name@, value);
            assert(sig.keyword_scan(surplus, kws.take(i + 1), start) == after);
            if let Some(k) = self.keyword_only_position(name) {
                output[num_positional + k] = Some(value);
            } else if let Some(p) = position(self.positional_parameter_names, name) {
                let param = self.positional_parameter_names[p];
                assert(sig.positional[p as int] == param@);
                if p < self.positional_only_parameters {
                    positional_only.push(param);
                    assert(texts(positional_only@) =~= before.violations.push(
                        sig.positional[p as int],
                    ));
                } else {
                    let filled = output[p].is_some();
                    output[p] = Some(value);
                    if filled {
                        proof {
                            lemma_failed_scan_stays(sig, surplus, kws, i + 1, start);
                        }
                        return Err(self.multiple_values_for_argument(param));
                    }
                }
            } else {
                assert(!any_varkeywords ==> keywords(varkeywords@) =~= Seq::empty());
                match surplus {
                    SurplusKeywords::Reject => {
                        proof {
                            lemma_failed_scan_stays(sig, surplus, kws, i + 1, start);
                        }
                        return Err(self.unexpected_keyword_argument(name));
                    },
                    SurplusKeywords::Collect => {
                        set_item(&mut varkeywords, name, value);
                        any_varkeywords = true;
                    },
                    SurplusKeywords::CollectUnique => {
                        if entry_position(&varkeywords, name).is_some() {
                            proof {
                                lemma_failed_scan_stays(sig, surplus, kws, i + 1, start);
                            }
                            return Err(self.multiple_values_for_argument(name));
                        }
                        let ghost collected = keywords(varkeywords@);
                        varkeywords.push((name, value));
                        assert(keywords(varkeywords@) =~= collected.push((name@, value)));
                        any_varkeywords = true;
                    },
                }
            }
            i += 1;
        }
        assert(kws.take(i as int) =~= kws);
        if positional_only.len() == 0 {
            if any_varkeywords {
                Ok(Some(varkeywords))
            } else {
                Ok(None)
            }
        } else {
            Err(self.positional_only_keyword_arguments(positional_only.as_slice()))
        }
    }
}

/// Puts the name of the argument in front of a type error that arose while the argument was
/// converted; any other error passes unchanged.
pub fn argument_extraction_error(_py: Python<'_>, arg_name: &str, error: PyErr) -> (e: PyErr)
    ensures
        error@.kind == ExceptionKind::TypeError ==> e@ == (PyErrView {
            kind: ExceptionKind::TypeError,
            message: "argument '"@ + arg_name@ + "': "@ + error@.message,
        }),
        error@.kind != ExceptionKind::TypeError ==> e == error,
{
    if error.is_instance(ExceptionKind::TypeError) {
        let mut msg = String::from_str("argument '");
        msg.append(arg_name);
        msg.append("': ");
        msg.append(error.message.as_str());
        PyErr::type_error(msg)
    } else {
        error
    }
}

/// What the wrapper of a native function is handed: the token of the lock alone, or the
/// module that the function belongs to.
#[derive(Clone, Copy, Debug)]
pub enum PyFunctionArguments<'a> {
    Python(Python<'a>),
    PyModule(&'a PyModule<'a>),
}

impl<'a> PyFunctionArguments<'a> {
    /// The token of the lock, and the module if one was handed over.
    pub fn into_py_and_maybe_module(self) -> (parts: (Python<'a>, Option<&'a PyModule<'a>>))
        ensures
            parts == match self {
                PyFunctionArguments::Python(py) => (py, None),
                PyFunctionArguments::PyModule(module) => (module.spec_py(), Some(module)),
            },
    {
        match self {
            PyFunctionArguments::Python(py) => (py, None),
            PyFunctionArguments::PyModule(module) => {
                let py = module.py();
                (py, Some(module))
            },
        }
    }
}

impl<'a> From<Python<'a>> for PyFunctionArguments<'a> {
    fn from(py: Python<'a>) -> (arguments: PyFunctionArguments<'a>) {
        PyFunctionArguments::Python(py)
    }
}

impl<'a> vstd::std_specs::convert::FromSpecImpl<Python<'a>> for PyFunctionArguments<'a> {
    open spec fn obeys_from_spec() -> bool {
        true
    }

    open spec fn from_spec(py: Python<'a>) -> PyFunctionArguments<'a> {
        PyFunctionArguments::Python(py)
    }
}

impl<'a> From<&'a PyModule<'a>> for PyFunctionArguments<'a> {
    fn from(module: &'a PyModule<'a>) -> (arguments: PyFunctionArguments<'a>) {
        PyFunctionArguments::PyModule(module)
    }
}

impl<'a> vstd::std_specs::convert::FromSpecImpl<&'a PyModule<'a>> for PyFunctionArguments<'a> {
    open spec fn obeys_from_spec() -> bool {
        true
    }

    open spec fn from_spec(module: &'a PyModule<'a>) -> PyFunctionArguments<'a> {
        PyFunctionArguments::PyModule(module)
    }
}

} // verus!
