//! Validated records: the record validator checks every mandatory field of a
//! raw record, compiles its patterns, and produces a fully-populated typed
//! record or a precise failure.

use vstd::prelude::*;

use crate::error::{BuildError, BuildErrorV, Field, Phase};
use crate::pattern::{pattern_valid, Matcher};
use crate::raw::{RawDescriptor, RawDescriptorV, RawFormat, RawFormatV, RawMetadata, RawMetadataV};

verus! {

/// The pattern rules classifying one category of number.
#[derive(Debug, Clone)]
pub struct Descriptor {
    /// Matched against the full national significant number; always present
    /// after validation.
    pub national_number: Matcher,
    /// Optional cheap pre-filter.
    pub possible_number: Option<Matcher>,
    pub possible_length: Vec<u16>,
    pub possible_local_length: Vec<u16>,
    pub example: Option<String>,
}

/// The mathematical model of a [`Descriptor`].
#[verifier::ext_equal]
pub struct DescriptorV {
    pub national_number: Seq<char>,
    pub possible_number: Option<Seq<char>>,
    pub possible_length: Seq<u16>,
    pub possible_local_length: Seq<u16>,
    pub example: Option<Seq<char>>,
}

impl View for Descriptor {
    type V = DescriptorV;

    open spec fn view(&self) -> DescriptorV {
        DescriptorV {
            national_number: self.national_number@,
            possible_number: self.possible_number.deep_view(),
            possible_length: self.possible_length@,
            possible_local_length: self.possible_local_length@,
            example: self.example.deep_view(),
        }
    }
}

impl DeepView for Descriptor {
    type V = DescriptorV;

    open spec fn deep_view(&self) -> DescriptorV {
        self.view()
    }
}

/// A display rewrite rule.
#[derive(Debug, Clone)]
pub struct Format {
    /// Selects which numbers this rule applies to; always present after
    /// validation.
    pub pattern: Matcher,
    /// Template with back-reference placeholders; always present after
    /// validation.
    pub format: String,
    /// Narrows applicability before `pattern` is tried; an empty sequence
    /// means "always applicable".
    pub leading_digits: Vec<Matcher>,
    pub national_prefix: Option<String>,
    pub domestic_carrier: Option<String>,
}

/// The mathematical model of a [`Format`].
#[verifier::ext_equal]
pub struct FormatV {
    pub pattern: Seq<char>,
    pub format: Seq<char>,
    pub leading_digits: Seq<Seq<char>>,
    pub national_prefix: Option<Seq<char>>,
    pub domestic_carrier: Option<Seq<char>>,
}

impl View for Format {
    type V = FormatV;

    open spec fn view(&self) -> FormatV {
        FormatV {
            pattern: self.pattern@,
            format: self.format@,
            leading_digits: self.leading_digits.deep_view(),
            national_prefix: self.national_prefix.deep_view(),
            domestic_carrier: self.domestic_carrier.deep_view(),
        }
    }
}

impl DeepView for Format {
    type V = FormatV;

    open spec fn deep_view(&self) -> FormatV {
        self.view()
    }
}

/// The fixed named set of descriptor slots of one territory: a mandatory
/// `general` slot and fourteen optional category slots.
#[derive(Debug, Clone)]
pub struct Descriptors {
    pub general: Descriptor,
    pub fixed_line: Option<Descriptor>,
    pub mobile: Option<Descriptor>,
    pub toll_free: Option<Descriptor>,
    pub premium_rate: Option<Descriptor>,
    pub shared_cost: Option<Descriptor>,
    pub personal_number: Option<Descriptor>,
    pub voip: Option<Descriptor>,
    pub pager: Option<Descriptor>,
    pub uan: Option<Descriptor>,
    pub emergency: Option<Descriptor>,
    pub voicemail: Option<Descriptor>,
    pub short_code: Option<Descriptor>,
    pub standard_rate: Option<Descriptor>,
    pub carrier: Option<Descriptor>,
    pub no_international: Option<Descriptor>,
}

/// The mathematical model of [`Descriptors`].
#[verifier::ext_equal]
pub struct DescriptorsV {
    pub general: DescriptorV,
    pub fixed_line: Option<DescriptorV>,
    pub mobile: Option<DescriptorV>,
    pub toll_free: Option<DescriptorV>,
    pub premium_rate: Option<DescriptorV>,
    pub shared_cost: Option<DescriptorV>,
    pub personal_number: Option<DescriptorV>,
    pub voip: Option<DescriptorV>,
    pub pager: Option<DescriptorV>,
    pub uan: Option<DescriptorV>,
    pub emergency: Option<DescriptorV>,
    pub voicemail: Option<DescriptorV>,
    pub short_code: Option<DescriptorV>,
    pub standard_rate: Option<DescriptorV>,
    pub carrier: Option<DescriptorV>,
    pub no_international: Option<DescriptorV>,
}

impl View for Descriptors {
    type V = DescriptorsV;

    open spec fn view(&self) -> DescriptorsV {
        DescriptorsV {
            general: self.general@,
            fixed_line: self.fixed_line.deep_view(),
            mobile: self.mobile.deep_view(),
            toll_free: self.toll_free.deep_view(),
            premium_rate: self.premium_rate.deep_view(),
            shared_cost: self.shared_cost.deep_view(),
            personal_number: self.personal_number.deep_view(),
            voip: self.voip.deep_view(),
            pager: self.pager.deep_view(),
            uan: self.uan.deep_view(),
            emergency: self.emergency.deep_view(),
            voicemail: self.voicemail.deep_view(),
            short_code: self.short_code.deep_view(),
            standard_rate: self.standard_rate.deep_view(),
            carrier: self.carrier.deep_view(),
            no_international: self.no_international.deep_view(),
        }
    }
}

impl DeepView for Descriptors {
    type V = DescriptorsV;

    open spec fn deep_view(&self) -> DescriptorsV {
        self.view()
    }
}

/// One fully validated territory record, immutable after construction.
#[derive(Debug, Clone)]
pub struct Metadata {
    pub descriptors: Descriptors,
    /// Unique territory key.
    pub id: String,
    /// Numbering-plan code; shared between territories.
    pub country_code: u16,
    pub international_prefix: Option<Matcher>,
    pub preferred_international_prefix: Option<String>,
    pub national_prefix: Option<String>,
    pub preferred_extension_prefix: Option<String>,
    pub national_prefix_for_parsing: Option<Matcher>,
    pub national_prefix_transform_rule: Option<String>,
    /// Rewrite rules, tried in order: the first matching rule wins.
    pub format: Vec<Format>,
    pub international_format: Vec<Format>,
    pub main_country_for_code: bool,
    pub leading_digits: Option<Matcher>,
    pub mobile_number_portable: bool,
}

/// The mathematical model of a [`Metadata`].
#[verifier::ext_equal]
pub struct MetadataV {
    pub descriptors: DescriptorsV,
    pub id: Seq<char>,
    pub country_code: u16,
    pub international_prefix: Option<Seq<char>>,
    pub preferred_international_prefix: Option<Seq<char>>,
    pub national_prefix: Option<Seq<char>>,
    pub preferred_extension_prefix: Option<Seq<char>>,
    pub national_prefix_for_parsing: Option<Seq<char>>,
    pub national_prefix_transform_rule: Option<Seq<char>>,
    pub format: Seq<FormatV>,
    pub international_format: Seq<FormatV>,
    pub main_country_for_code: bool,
    pub leading_digits: Option<Seq<char>>,
    pub mobile_number_portable: bool,
}

impl View for Metadata {
    type V = MetadataV;

    open spec fn view(&self) -> MetadataV {
        MetadataV {
            descriptors: self.descriptors@,
            id: self.id@,
            country_code: self.country_code,
            international_prefix: self.international_prefix.deep_view(),
            preferred_international_prefix: self.preferred_international_prefix.deep_view(),
            national_prefix: self.national_prefix.deep_view(),
            preferred_extension_prefix: self.preferred_extension_prefix.deep_view(),
            national_prefix_for_parsing: self.national_prefix_for_parsing.deep_view(),
            national_prefix_transform_rule: self.national_prefix_transform_rule.deep_view(),
            format: self.format.deep_view(),
            international_format: self.international_format.deep_view(),
            main_country_for_code: self.main_country_for_code,
            leading_digits: self.leading_digits.deep_view(),
            mobile_number_portable: self.mobile_number_portable,
        }
    }
}

impl DeepView for Metadata {
    type V = MetadataV;

    open spec fn deep_view(&self) -> MetadataV {
        self.view()
    }
}

/// What validating an optional pattern field yields: absent stays absent, a
/// present field must compile.
pub open spec fn opt_pattern_spec(o: Option<Seq<char>>) -> Result<Option<Seq<char>>, BuildErrorV> {
    match o {
        None => Ok(None),
        Some(t) => if pattern_valid(t) {
            Ok(Some(t))
        } else {
            Err(BuildErrorV::Pattern { text: t })
        },
    }
}

/// What validating one raw descriptor yields: the national-number pattern is
/// mandatory and must compile, the possible-number pattern must compile when
/// present, everything else passes through.
pub open spec fn descriptor_spec(d: RawDescriptorV) -> Result<DescriptorV, BuildErrorV> {
    if d.national_number is None {
        Err(BuildErrorV::MissingValue { phase: Phase::Descriptor, name: Field::NationalNumber })
    } else if !pattern_valid(d.national_number->Some_0) {
        Err(BuildErrorV::Pattern { text: d.national_number->Some_0 })
    } else {
        match opt_pattern_spec(d.possible_number) {
            Err(e) => Err(e),
            Ok(possible_number) => Ok(DescriptorV {
                national_number: d.national_number->Some_0,
                possible_number,
                possible_length: d.possible_length,
                possible_local_length: d.possible_local_length,
                example: d.example,
            }),
        }
    }
}

/// What validating an optional descriptor slot yields.
pub open spec fn opt_descriptor_spec(o: Option<RawDescriptorV>) -> Result<
    Option<DescriptorV>,
    BuildErrorV,
> {
    match o {
        None => Ok(None),
        Some(d) => match descriptor_spec(d) {
            Ok(v) => Ok(Some(v)),
            Err(e) => Err(e),
        },
    }
}

/// Whether every pattern of the sequence compiles; the first failure wins.
pub open spec fn patterns_spec(s: Seq<Seq<char>>) -> Result<(), BuildErrorV>
    decreases s.len(),
{
    if s.len() == 0 {
        Ok(())
    } else if !pattern_valid(s.first()) {
        Err(BuildErrorV::Pattern { text: s.first() })
    } else {
        patterns_spec(s.drop_first())
    }
}

/// What validating one raw format yields: the selection pattern and the
/// template are mandatory, and every leading-digits pattern must compile.
pub open spec fn format_spec(f: RawFormatV) -> Result<FormatV, BuildErrorV> {
    if f.pattern is None {
        Err(BuildErrorV::MissingValue { phase: Phase::Format, name: Field::Pattern })
    } else if !pattern_valid(f.pattern->Some_0) {
        Err(BuildErrorV::Pattern { text: f.pattern->Some_0 })
    } else if f.format is None {
        Err(BuildErrorV::MissingValue { phase: Phase::Format, name: Field::Format })
    } else {
        match patterns_spec(f.leading_digits) {
            Err(e) => Err(e),
            Ok(_) => Ok(FormatV {
                pattern: f.pattern->Some_0,
                format: f.format->Some_0,
                leading_digits: f.leading_digits,
                national_prefix: f.national_prefix,
                domestic_carrier: f.domestic_carrier,
            }),
        }
    }
}

/// What validating a sequence of raw formats yields, in order; the first
/// failure wins.
pub open spec fn formats_spec(s: Seq<RawFormatV>) -> Result<Seq<FormatV>, BuildErrorV>
    decreases s.len(),
{
    if s.len() == 0 {
        Ok(Seq::empty())
    } else {
        match format_spec(s.first()) {
            Err(e) => Err(e),
            Ok(v) => match formats_spec(s.drop_first()) {
                Err(e) => Err(e),
                Ok(rest) => Ok(seq![v] + rest),
            },
        }
    }
}

/// What validating one raw record yields: every mandatory field checked in
/// the order the record is assembled, fail-fast on the first absence or
/// pattern failure.
pub open spec fn validate_spec(m: RawMetadataV) -> Result<MetadataV, BuildErrorV> {
    let general = match m.general {
        None => Err(BuildErrorV::MissingValue { phase: Phase::Metadata, name: Field::GeneralDesc }),
        Some(d) => descriptor_spec(d),
    };
    let fixed_line = opt_descriptor_spec(m.fixed_line);
    let mobile = opt_descriptor_spec(m.mobile);
    let toll_free = opt_descriptor_spec(m.toll_free);
    let premium_rate = opt_descriptor_spec(m.premium_rate);
    let shared_cost = opt_descriptor_spec(m.shared_cost);
    let personal_number = opt_descriptor_spec(m.personal_number);
    let voip = opt_descriptor_spec(m.voip);
    let pager = opt_descriptor_spec(m.pager);
    let uan = opt_descriptor_spec(m.uan);
    let emergency = opt_descriptor_spec(m.emergency);
    let voicemail = opt_descriptor_spec(m.voicemail);
    let short_code = opt_descriptor_spec(m.short_code);
    let standard_rate = opt_descriptor_spec(m.standard_rate);
    let carrier = opt_descriptor_spec(m.carrier);
    let no_international = opt_descriptor_spec(m.no_international);
    let id = match m.id {
        None => Err(BuildErrorV::MissingValue { phase: Phase::Metadata, name: Field::Id }),
        Some(s) => Ok(s),
    };
    let country_code = match m.country_code {
        None => Err(BuildErrorV::MissingValue { phase: Phase::Metadata, name: Field::CountryCode }),
        Some(c) => Ok(c),
    };
    let international_prefix = opt_pattern_spec(m.international_prefix);
    let national_prefix_for_parsing = opt_pattern_spec(m.national_prefix_for_parsing);
    let format = formats_spec(m.format);
    let international_format = formats_spec(m.international_format);
    let leading_digits = opt_pattern_spec(m.leading_digits);
    if general is Err {
        Err(general->Err_0)
    } else if fixed_line is Err {
        Err(fixed_line->Err_0)
    } else if mobile is Err {
        Err(mobile->Err_0)
    } else if toll_free is Err {
        Err(toll_free->Err_0)
    } else if premium_rate is Err {
        Err(premium_rate->Err_0)
    } else if shared_cost is Err {
        Err(shared_cost->Err_0)
    } else if personal_number is Err {
        Err(personal_number->Err_0)
    } else if voip is Err {
        Err(voip->Err_0)
    } else if pager is Err {
        Err(pager->Err_0)
    } else if uan is Err {
        Err(uan->Err_0)
    } else if emergency is Err {
        Err(emergency->Err_0)
    } else if voicemail is Err {
        Err(voicemail->Err_0)
    } else if short_code is Err {
        Err(short_code->Err_0)
    } else if standard_rate is Err {
        Err(standard_rate->Err_0)
    } else if carrier is Err {
        Err(carrier->Err_0)
    } else if no_international is Err {
        Err(no_international->Err_0)
    } else if id is Err {
        Err(id->Err_0)
    } else if country_code is Err {
        Err(country_code->Err_0)
    } else if international_prefix is Err {
        Err(international_prefix->Err_0)
    } else if national_prefix_for_parsing is Err {
        Err(national_prefix_for_parsing->Err_0)
    } else if format is Err {
        Err(format->Err_0)
    } else if international_format is Err {
        Err(international_format->Err_0)
    } else if leading_digits is Err {
        Err(leading_digits->Err_0)
    } else {
        Ok(MetadataV {
            descriptors: DescriptorsV {
                general: general->Ok_0,
                fixed_line: fixed_line->Ok_0,
                mobile: mobile->Ok_0,
                toll_free: toll_free->Ok_0,
                premium_rate: premium_rate->Ok_0,
                shared_cost: shared_cost->Ok_0,
                personal_number: personal_number->Ok_0,
                voip: voip->Ok_0,
                pager: pager->Ok_0,
                uan: uan->Ok_0,
                emergency: emergency->Ok_0,
                voicemail: voicemail->Ok_0,
                short_code: short_code->Ok_0,
                standard_rate: standard_rate->Ok_0,
                carrier: carrier->Ok_0,
                no_international: no_international->Ok_0,
            },
            id: id->Ok_0,
            country_code: country_code->Ok_0,
            international_prefix: international_prefix->Ok_0,
            preferred_international_prefix: m.preferred_international_prefix,
            national_prefix: m.national_prefix,
            preferred_extension_prefix: m.preferred_extension_prefix,
            national_prefix_for_parsing: national_prefix_for_parsing->Ok_0,
            national_prefix_transform_rule: m.national_prefix_transform_rule,
            format: format->Ok_0,
            international_format: international_format->Ok_0,
            main_country_for_code: m.main_country_for_code,
            leading_digits: leading_digits->Ok_0,
            mobile_number_portable: m.mobile_number_portable,
        })
    }
}

/// A sequence of patterns that all compile is accepted whole.
proof fn lemma_patterns_all_valid(s: Seq<Seq<char>>)
    requires
        forall|j: int| 0 <= j < s.len() ==> pattern_valid(s[j]),
    ensures
        patterns_spec(s) == Ok::<(), BuildErrorV>(()),
    decreases s.len(),
{
    if s.len() > 0 {
        assert(pattern_valid(s[0]));
        lemma_patterns_all_valid(s.drop_first());
    }
}

/// The first pattern that fails to compile decides the outcome.
proof fn lemma_patterns_first_invalid(s: Seq<Seq<char>>, i: int)
    requires
        0 <= i < s.len(),
        forall|j: int| 0 <= j < i ==> pattern_valid(s[j]),
        !pattern_valid(s[i]),
    ensures
        patterns_spec(s) == Err::<(), BuildErrorV>((BuildErrorV::Pattern { text: s[i] })),
    decreases i,
{
    if i > 0 {
        assert(pattern_valid(s[0]));
        lemma_patterns_first_invalid(s.drop_first(), i - 1);
    }
}

/// A sequence of raw formats that all validate is accepted whole, in order.
proof fn lemma_formats_of_prefix(s: Seq<RawFormatV>, t: Seq<FormatV>)
    requires
        s.len() == t.len(),
        forall|j: int| 0 <= j < s.len()
            ==> #[trigger] format_spec(s[j]) is Ok && t[j] == format_spec(s[j])->Ok_0,
    ensures
        formats_spec(s) == Ok::<Seq<FormatV>, BuildErrorV>(t),
    decreases s.len(),
{
    if s.len() == 0 {
        assert(t =~= Seq::<FormatV>::empty());
    } else {
        assert(format_spec(s[0]) is Ok);
        lemma_formats_of_prefix(s.drop_first(), t.drop_first());
        assert(seq![t[0]] + t.drop_first() =~= t);
    }
}

/// The first raw format that fails to validate decides the outcome.
proof fn lemma_formats_first_err(s: Seq<RawFormatV>, i: int)
    requires
        0 <= i < s.len(),
        forall|j: int| 0 <= j < i ==> #[trigger] format_spec(s[j]) is Ok,
        format_spec(s[i]) is Err,
    ensures
        formats_spec(s) == Err::<Seq<FormatV>, BuildErrorV>(format_spec(s[i])->Err_0),
    decreases i,
{
    if i > 0 {
        assert(format_spec(s[0]) is Ok);
        lemma_formats_first_err(s.drop_first(), i - 1);
    }
}

/// Compile an optional pattern field.
fn opt_matcher(o: Option<String>) -> (r: Result<Option<Matcher>, BuildError>)
    ensures
        r matches Ok(v) ==> opt_pattern_spec(o.deep_view()) == Ok::<
            Option<Seq<char>>,
            BuildErrorV,
        >(v.deep_view()),
        r matches Err(e) ==> opt_pattern_spec(o.deep_view()) == Err::<
            Option<Seq<char>>,
            BuildErrorV,
        >(e@),
{
    match o {
        None => Ok(None),
        Some(text) => match Matcher::compile(text.as_str()) {
            Ok(m) => Ok(Some(m)),
            Err(e) => Err(e),
        },
    }
}

/// Build one descriptor from its raw record.
pub fn build_descriptor(d: RawDescriptor) -> (r: Result<Descriptor, BuildError>)
    ensures
        r matches Ok(v) ==> descriptor_spec(d@) == Ok::<DescriptorV, BuildErrorV>(v@),
        r matches Err(e) ==> descriptor_spec(d@) == Err::<DescriptorV, BuildErrorV>(e@),
{
    let RawDescriptor { national_number, possible_number, possible_length, possible_local_length, example } = d;
    let national_number = match national_number {
        None => return Err(
            BuildError::MissingValue { phase: Phase::Descriptor, name: Field::NationalNumber },
        ),
        Some(text) => match Matcher::compile(text.as_str()) {
            Ok(m) => m,
            Err(e) => return Err(e),
        },
    };
    let possible_number = match opt_matcher(possible_number) {
        Ok(v) => v,
        Err(e) => return Err(e),
    };
    Ok(Descriptor { national_number, possible_number, possible_length, possible_local_length, example })
}

/// Build an optional descriptor slot.
pub fn opt_descriptor(o: Option<RawDescriptor>) -> (r: Result<Option<Descriptor>, BuildError>)
    ensures
        r matches Ok(v) ==> opt_descriptor_spec(o.deep_view()) == Ok::<
            Option<DescriptorV>,
            BuildErrorV,
        >(v.deep_view()),
        r matches Err(e) ==> opt_descriptor_spec(o.deep_view()) == Err::<
            Option<DescriptorV>,
            BuildErrorV,
        >(e@),
{
    match o {
        None => Ok(None),
        Some(d) => match build_descriptor(d) {
            Ok(v) => Ok(Some(v)),
            Err(e) => Err(e),
        },
    }
}

/// Build one format rule from its raw record.
#[verifier::loop_isolation(false)]
pub fn build_format(f: RawFormat) -> (r: Result<Format, BuildError>)
    ensures
        r matches Ok(v) ==> format_spec(f@) == Ok::<FormatV, BuildErrorV>(v@),
        r matches Err(e) ==> format_spec(f@) == Err::<FormatV, BuildErrorV>(e@),
{
    let ghost fv = f@;
    let RawFormat { pattern, format, leading_digits, national_prefix, domestic_carrier } = f;
    let pattern = match pattern {
        None => return Err(BuildError::MissingValue { phase: Phase::Format, name: Field::Pattern }),
        Some(text) => match Matcher::compile(text.as_str()) {
            Ok(m) => m,
            Err(e) => return Err(e),
        },
    };
    let format = match format {
        None => return Err(BuildError::MissingValue { phase: Phase::Format, name: Field::Format }),
        Some(s) => s,
    };
    let ghost ldv = fv.leading_digits;
    let mut compiled: Vec<Matcher> = Vec::new();
    let mut i: usize = 0;
    while i < leading_digits.len()
        invariant
            i <= leading_digits.len(),
            leading_digits.deep_view() == ldv,
            compiled.deep_view().len() == i as int,
            forall|j: int| 0 <= j < i ==> pattern_valid(#[trigger] ldv[j])
                && compiled.deep_view()[j] == ldv[j],
        decreases leading_digits.len() - i,
    {
        let text = &leading_digits[i];
        match Matcher::compile(text.as_str()) {
            Ok(m) => {
                compiled.push(m);
            },
            Err(e) => {
                proof {
                    lemma_patterns_first_invalid(ldv, i as int);
                }
                return Err(e);
            },
        }
        i = i + 1;
    }
    proof {
        lemma_patterns_all_valid(ldv);
        assert(compiled.deep_view() =~= ldv);
    }
    Ok(Format { pattern, format, leading_digits: compiled, national_prefix, domestic_carrier })
}

/// Build a sequence of format rules, preserving their order.
#[verifier::loop_isolation(false)]
pub fn build_formats(v: Vec<RawFormat>) -> (r: Result<Vec<Format>, BuildError>)
    ensures
        r matches Ok(out) ==> formats_spec(v.deep_view()) == Ok::<
            Seq<FormatV>,
            BuildErrorV,
        >(out.deep_view()),
        r matches Err(e) ==> formats_spec(v.deep_view()) == Err::<Seq<FormatV>, BuildErrorV>(e@),
{
    let ghost views = v.deep_view();
    let mut rest = v;
    let mut out: Vec<Format> = Vec::new();
    proof {
        assert(rest.deep_view() =~= views.skip(0));
    }
    while rest.len() > 0
        invariant
            out.deep_view().len() <= views.len(),
            rest.deep_view() == views.skip(out.deep_view().len() as int),
            forall|j: int| 0 <= j < out.deep_view().len() ==> #[trigger] format_spec(views[j]) is Ok
                && out.deep_view()[j] == format_spec(views[j])->Ok_0,
        decreases rest.len(),
    {
        let ghost i: int = out.deep_view().len() as int;
        let ghost prev = rest.deep_view();
        let ghost prev_raw = rest@;
        let raw = rest.remove(0);
        proof {
            assert(raw@ == prev[0]);
            assert(prev[0] == views[i]);
            assert forall|k: int| 0 <= k < rest@.len() implies rest.deep_view()[k] == views.skip(
                i + 1,
            )[k] by {
                assert(rest@[k] == prev_raw[k + 1]);
                assert(rest.deep_view()[k] == prev_raw[k + 1].deep_view());
                assert(prev[k + 1] == prev_raw[k + 1].deep_view());
                assert(prev[k + 1] == views.skip(i)[k + 1]);
            }
            assert(rest.deep_view() =~= views.skip(i + 1));
        }
        match build_format(raw) {
            Ok(fmt) => {
                out.push(fmt);
            },
            Err(e) => {
                proof {
                    lemma_formats_first_err(views, i);
                }
                return Err(e);
            },
        }
    }
    proof {
        assert(views.skip(out.deep_view().len() as int).len() == 0);
        lemma_formats_of_prefix(views, out.deep_view());
    }
    Ok(out)
}

/// Validate one raw record: check the presence of every mandatory field, in
/// the order the record is assembled, and compile every pattern; the first
/// missing field or failing pattern aborts this record's construction.
pub fn validate(raw: RawMetadata) -> (r: Result<Metadata, BuildError>)
    ensures
        r matches Ok(m) ==> validate_spec(raw@) == Ok::<MetadataV, BuildErrorV>(m@),
        r matches Err(e) ==> validate_spec(raw@) == Err::<MetadataV, BuildErrorV>(e@),
{
    let ghost rawv = raw@;
    let RawMetadata {
        general,
        fixed_line,
        mobile,
        toll_free,
        premium_rate,
        shared_cost,
        personal_number,
        voip,
        pager,
        uan,
        emergency,
        voicemail,
        short_code,
        standard_rate,
        carrier,
        no_international,
        id,
        country_code,
        international_prefix,
        preferred_international_prefix,
        national_prefix,
        preferred_extension_prefix,
        national_prefix_for_parsing,
        national_prefix_transform_rule,
        format,
        international_format,
        main_country_for_code,
        leading_digits,
        mobile_number_portable,
    } = raw;
    let general = match general {
        None => return Err(
            BuildError::MissingValue { phase: Phase::Metadata, name: Field::GeneralDesc },
        ),
        Some(d) => match build_descriptor(d) {
            Ok(v) => v,
            Err(e) => return Err(e),
        },
    };
    let fixed_line = match opt_descriptor(fixed_line) {
        Ok(v) => v,
        Err(e) => return Err(e),
    };
    let mobile = match opt_descriptor(mobile) {
        Ok(v) => v,
        Err(e) => return Err(e),
    };
    let toll_free = match opt_descriptor(toll_free) {
        Ok(v) => v,
        Err(e) => return Err(e),
    };
    let premium_rate = match opt_descriptor(premium_rate) {
        Ok(v) => v,
        Err(e) => return Err(e),
    };
    let shared_cost = match opt_descriptor(shared_cost) {
        Ok(v) => v,
        Err(e) => return Err(e),
    };
    let personal_number = match opt_descriptor(personal_number) {
        Ok(v) => v,
        Err(e) => return Err(e),
    };
    let voip = match opt_descriptor(voip) {
        Ok(v) => v,
        Err(e) => return Err(e),
    };
    let pager = match opt_descriptor(pager) {
        Ok(v) => v,
        Err(e) => return Err(e),
    };
    let uan = match opt_descriptor(uan) {
        Ok(v) => v,
        Err(e) => return Err(e),
    };
    let emergency = match opt_descriptor(emergency) {
        Ok(v) => v,
        Err(e) => return Err(e),
    };
    let voicemail = match opt_descriptor(voicemail) {
        Ok(v) => v,
        Err(e) => return Err(e),
    };
    let short_code = match opt_descriptor(short_code) {
        Ok(v) => v,
        Err(e) => return Err(e),
    };
    let standard_rate = match opt_descriptor(standard_rate) {
        Ok(v) => v,
        Err(e) => return Err(e),
    };
    let carrier = match opt_descriptor(carrier) {
        Ok(v) => v,
        Err(e) => return Err(e),
    };
    let no_international = match opt_descriptor(no_international) {
        Ok(v) => v,
        Err(e) => return Err(e),
    };
    let id = match id {
        None => return Err(BuildError::MissingValue { phase: Phase::Metadata, name: Field::Id }),
        Some(s) => s,
    };
    let country_code = match country_code {
        None => return Err(
            BuildError::MissingValue { phase: Phase::Metadata, name: Field::CountryCode },
        ),
        Some(c) => c,
    };
    let international_prefix = match opt_matcher(international_prefix) {
        Ok(v) => v,
        Err(e) => return Err(e),
    };
    let national_prefix_for_parsing = match opt_matcher(national_prefix_for_parsing) {
        Ok(v) => v,
        Err(e) => return Err(e),
    };
    let format = match build_formats(format) {
        Ok(v) => v,
        Err(e) => return Err(e),
    };
    let international_format = match build_formats(international_format) {
        Ok(v) => v,
        Err(e) => return Err(e),
    };
    let leading_digits = match opt_matcher(leading_digits) {
        Ok(v) => v,
        Err(e) => return Err(e),
    };
    Ok(Metadata {
        descriptors: Descriptors {
            general,
            fixed_line,
            mobile,
            toll_free,
            premium_rate,
            shared_cost,
            personal_number,
            voip,
            pager,
            uan,
            emergency,
            voicemail,
            short_code,
            standard_rate,
            carrier,
            no_international,
        },
        id,
        country_code,
        international_prefix,
        preferred_international_prefix,
        national_prefix,
        preferred_extension_prefix,
        national_prefix_for_parsing,
        national_prefix_transform_rule,
        format,
        international_format,
        main_country_for_code,
        leading_digits,
        mobile_number_portable,
    })
}

} // verus!

verus! {

/// Copy an optional scalar field.
fn clone_opt_string(o: &Option<String>) -> (r: Option<String>)
    ensures
        r.deep_view() == o.deep_view(),
{
    match o {
        None => None,
        Some(s) => Some(s.clone()),
    }
}

/// Copy a sequence of length values.
fn clone_lengths(v: &Vec<u16>) -> (r: Vec<u16>)
    ensures
        r@ == v@,
{
    let c = v.clone();
    proof {
        assert forall|i: int| 0 <= i < c@.len() implies c@[i] == v@[i] by {
            assert(c.deep_view()[i] == v.deep_view()[i]);
        }
        assert(c@ =~= v@);
    }
    c
}

impl Descriptor {
    /// Re-derive the raw record this descriptor was validated from:
    /// validating the result yields this descriptor back.
    pub fn to_raw(&self) -> (r: RawDescriptor)
        ensures
            descriptor_spec(r@) == Ok::<DescriptorV, BuildErrorV>(self@),
    {
        proof {
            use_type_invariant(&self.national_number);
        }
        let possible_number = match &self.possible_number {
            None => None,
            Some(m) => {
                proof {
                    use_type_invariant(m);
                }
                Some(m.source().to_owned())
            },
        };
        RawDescriptor {
            national_number: Some(self.national_number.source().to_owned()),
            possible_number,
            possible_length: clone_lengths(&self.possible_length),
            possible_local_length: clone_lengths(&self.possible_local_length),
            example: clone_opt_string(&self.example),
        }
    }
}

/// Re-derive an optional descriptor slot.
fn opt_descriptor_raw(o: &Option<Descriptor>) -> (r: Option<RawDescriptor>)
    ensures
        opt_descriptor_spec(r.deep_view()) == Ok::<Option<DescriptorV>, BuildErrorV>(o.deep_view()),
{
    match o {
        None => None,
        Some(d) => Some(d.to_raw()),
    }
}

/// Re-derive an optional pattern field.
fn opt_matcher_raw(o: &Option<Matcher>) -> (r: Option<String>)
    ensures
        opt_pattern_spec(r.deep_view()) == Ok::<Option<Seq<char>>, BuildErrorV>(o.deep_view()),
{
    match o {
        None => None,
        Some(m) => {
            proof {
                use_type_invariant(m);
            }
            Some(m.source().to_owned())
        },
    }
}

impl Format {
    /// Re-derive the raw record this format rule was validated from:
    /// validating the result yields this rule back.
    #[verifier::loop_isolation(false)]
    pub fn to_raw(&self) -> (r: RawFormat)
        ensures
            format_spec(r@) == Ok::<FormatV, BuildErrorV>(self@),
    {
        proof {
            use_type_invariant(&self.pattern);
        }
        let mut leading_digits: Vec<String> = Vec::new();
        let mut i: usize = 0;
        while i < self.leading_digits.len()
            invariant
                i <= self.leading_digits.len(),
                leading_digits.deep_view().len() == i as int,
                forall|j: int| 0 <= j < i
                    ==> #[trigger] leading_digits.deep_view()[j]
                        == self.leading_digits.deep_view()[j]
                        && pattern_valid(self.leading_digits.deep_view()[j]),
            decreases self.leading_digits.len() - i,
        {
            let m = &self.leading_digits[i];
            proof {
                use_type_invariant(m);
                assert(self.leading_digits.deep_view()[i as int] == m@);
            }
            let src = m.source().to_owned();
            let ghost prev_deep = leading_digits.deep_view();
            let ghost prev_raw = leading_digits@;
            leading_digits.push(src);
            proof {
                assert forall|j: int| 0 <= j < i + 1 implies #[trigger] leading_digits.deep_view()[j]
                    == self.leading_digits.deep_view()[j] && pattern_valid(
                    self.leading_digits.deep_view()[j],
                ) by {
                    if j < i {
                        assert(leading_digits@[j] == prev_raw[j]);
                        assert(leading_digits.deep_view()[j] == prev_raw[j].deep_view());
                        assert(prev_deep[j] == prev_raw[j].deep_view());
                    } else {
                        assert(leading_digits@[j] == src);
                    }
                }
            }
            i = i + 1;
        }
        proof {
            assert(leading_digits.deep_view() =~= self.leading_digits.deep_view());
            lemma_patterns_all_valid(self.leading_digits.deep_view());
        }
        RawFormat {
            pattern: Some(self.pattern.source().to_owned()),
            format: Some(self.format.clone()),
            leading_digits,
            national_prefix: clone_opt_string(&self.national_prefix),
            domestic_carrier: clone_opt_string(&self.domestic_carrier),
        }
    }
}

/// Re-derive a sequence of format rules, in order.
#[verifier::loop_isolation(false)]
fn formats_raw(v: &Vec<Format>) -> (r: Vec<RawFormat>)
    ensures
        formats_spec(r.deep_view()) == Ok::<Seq<FormatV>, BuildErrorV>(v.deep_view()),
{
    let mut out: Vec<RawFormat> = Vec::new();
    let mut i: usize = 0;
    while i < v.len()
        invariant
            i <= v.len(),
            out.deep_view().len() == i as int,
            forall|j: int| 0 <= j < i
                ==> #[trigger] format_spec(out.deep_view()[j]) is Ok
                    && format_spec(out.deep_view()[j])->Ok_0 == v.deep_view()[j],
        decreases v.len() - i,
    {
        let raw = v[i].to_raw();
        proof {
            assert(v.deep_view()[i as int] == v@[i as int]@);
        }
        let ghost prev_deep = out.deep_view();
        let ghost prev_raw = out@;
        out.push(raw);
        proof {
            assert forall|j: int| 0 <= j < i + 1 implies #[trigger] format_spec(
                out.deep_view()[j],
            ) is Ok && format_spec(out.deep_view()[j])->Ok_0 == v.deep_view()[j] by {
                if j < i {
                    assert(out@[j] == prev_raw[j]);
                    assert(out.deep_view()[j] == prev_raw[j].deep_view());
                    assert(prev_deep[j] == prev_raw[j].deep_view());
                } else {
                    assert(out@[j] == raw);
                }
            }
        }
        i = i + 1;
    }
    proof {
        lemma_formats_of_prefix(out.deep_view(), v.deep_view());
    }
    out
}

impl Metadata {
    /// Re-derive the raw record this metadata was validated from:
    /// validating the result yields this record back.
    pub fn to_raw(&self) -> (r: RawMetadata)
        ensures
            validate_spec(r@) == Ok::<MetadataV, BuildErrorV>(self@),
    {
        RawMetadata {
            general: Some(self.descriptors.general.to_raw()),
            fixed_line: opt_descriptor_raw(&self.descriptors.fixed_line),
            mobile: opt_descriptor_raw(&self.descriptors.mobile),
            toll_free: opt_descriptor_raw(&self.descriptors.toll_free),
            premium_rate: opt_descriptor_raw(&self.descriptors.premium_rate),
            shared_cost: opt_descriptor_raw(&self.descriptors.shared_cost),
            personal_number: opt_descriptor_raw(&self.descriptors.personal_number),
            voip: opt_descriptor_raw(&self.descriptors.voip),
            pager: opt_descriptor_raw(&self.descriptors.pager),
            uan: opt_descriptor_raw(&self.descriptors.uan),
            emergency: opt_descriptor_raw(&self.descriptors.emergency),
            voicemail: opt_descriptor_raw(&self.descriptors.voicemail),
            short_code: opt_descriptor_raw(&self.descriptors.short_code),
            standard_rate: opt_descriptor_raw(&self.descriptors.standard_rate),
            carrier: opt_descriptor_raw(&self.descriptors.carrier),
            no_international: opt_descriptor_raw(&self.descriptors.no_international),
            id: Some(self.id.clone()),
            country_code: Some(self.country_code),
            international_prefix: opt_matcher_raw(&self.international_prefix),
            preferred_international_prefix: clone_opt_string(
                &self.preferred_international_prefix,
            ),
            national_prefix: clone_opt_string(&self.national_prefix),
            preferred_extension_prefix: clone_opt_string(&self.preferred_extension_prefix),
            national_prefix_for_parsing: opt_matcher_raw(&self.national_prefix_for_parsing),
            national_prefix_transform_rule: clone_opt_string(
                &self.national_prefix_transform_rule,
            ),
            format: formats_raw(&self.format),
            international_format: formats_raw(&self.international_format),
            main_country_for_code: self.main_country_for_code,
            leading_digits: opt_matcher_raw(&self.leading_digits),
            mobile_number_portable: self.mobile_number_portable,
        }
    }
}

} // verus!
