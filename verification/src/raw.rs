//! Raw, loosely-typed records as the deserialization layer hands them over:
//! every field may be absent, and nothing has been checked yet.

use vstd::prelude::*;

verus! {

/// The raw pattern rules for one category of number.
#[derive(Debug)]
pub struct RawDescriptor {
    pub national_number: Option<String>,
    pub possible_number: Option<String>,
    pub possible_length: Vec<u16>,
    pub possible_local_length: Vec<u16>,
    pub example: Option<String>,
}

/// The mathematical model of a [`RawDescriptor`].
pub struct RawDescriptorV {
    pub national_number: Option<Seq<char>>,
    pub possible_number: Option<Seq<char>>,
    pub possible_length: Seq<u16>,
    pub possible_local_length: Seq<u16>,
    pub example: Option<Seq<char>>,
}

impl View for RawDescriptor {
    type V = RawDescriptorV;

    open spec fn view(&self) -> RawDescriptorV {
        RawDescriptorV {
            national_number: self.national_number.deep_view(),
            possible_number: self.possible_number.deep_view(),
            possible_length: self.possible_length@,
            possible_local_length: self.possible_local_length@,
            example: self.example.deep_view(),
        }
    }
}

impl DeepView for RawDescriptor {
    type V = RawDescriptorV;

    open spec fn deep_view(&self) -> RawDescriptorV {
        self.view()
    }
}

impl Default for RawDescriptor {
    /// A raw descriptor with every field absent.
    fn default() -> (r: Self)
        ensures
            r@.national_number is None,
            r@.possible_number is None,
            r@.possible_length.len() == 0,
            r@.possible_local_length.len() == 0,
            r@.example is None,
    {
        RawDescriptor {
            national_number: None,
            possible_number: None,
            possible_length: Vec::new(),
            possible_local_length: Vec::new(),
            example: None,
        }
    }
}

/// A raw display rewrite rule.
#[derive(Debug)]
pub struct RawFormat {
    pub pattern: Option<String>,
    pub format: Option<String>,
    pub leading_digits: Vec<String>,
    pub national_prefix: Option<String>,
    pub domestic_carrier: Option<String>,
}

/// The mathematical model of a [`RawFormat`].
pub struct RawFormatV {
    pub pattern: Option<Seq<char>>,
    pub format: Option<Seq<char>>,
    pub leading_digits: Seq<Seq<char>>,
    pub national_prefix: Option<Seq<char>>,
    pub domestic_carrier: Option<Seq<char>>,
}

impl View for RawFormat {
    type V = RawFormatV;

    open spec fn view(&self) -> RawFormatV {
        RawFormatV {
            pattern: self.pattern.deep_view(),
            format: self.format.deep_view(),
            leading_digits: self.leading_digits.deep_view(),
            national_prefix: self.national_prefix.deep_view(),
            domestic_carrier: self.domestic_carrier.deep_view(),
        }
    }
}

impl DeepView for RawFormat {
    type V = RawFormatV;

    open spec fn deep_view(&self) -> RawFormatV {
        self.view()
    }
}

impl Default for RawFormat {
    /// A raw format with every field absent.
    fn default() -> (r: Self)
        ensures
            r@.pattern is None,
            r@.format is None,
            r@.leading_digits.len() == 0,
            r@.national_prefix is None,
            r@.domestic_carrier is None,
    {
        RawFormat {
            pattern: None,
            format: None,
            leading_digits: Vec::new(),
            national_prefix: None,
            domestic_carrier: None,
        }
    }
}

/// One raw territory record: a bag of optional scalar fields and optional
/// nested descriptor and format records.
#[derive(Debug)]
pub struct RawMetadata {
    pub general: Option<RawDescriptor>,
    pub fixed_line: Option<RawDescriptor>,
    pub mobile: Option<RawDescriptor>,
    pub toll_free: Option<RawDescriptor>,
    pub premium_rate: Option<RawDescriptor>,
    pub shared_cost: Option<RawDescriptor>,
    pub personal_number: Option<RawDescriptor>,
    pub voip: Option<RawDescriptor>,
    pub pager: Option<RawDescriptor>,
    pub uan: Option<RawDescriptor>,
    pub emergency: Option<RawDescriptor>,
    pub voicemail: Option<RawDescriptor>,
    pub short_code: Option<RawDescriptor>,
    pub standard_rate: Option<RawDescriptor>,
    pub carrier: Option<RawDescriptor>,
    pub no_international: Option<RawDescriptor>,
    pub id: Option<String>,
    pub country_code: Option<u16>,
    pub international_prefix: Option<String>,
    pub preferred_international_prefix: Option<String>,
    pub national_prefix: Option<String>,
    pub preferred_extension_prefix: Option<String>,
    pub national_prefix_for_parsing: Option<String>,
    pub national_prefix_transform_rule: Option<String>,
    pub format: Vec<RawFormat>,
    pub international_format: Vec<RawFormat>,
    pub main_country_for_code: bool,
    pub leading_digits: Option<String>,
    pub mobile_number_portable: bool,
}

/// The mathematical model of a [`RawMetadata`].
pub struct RawMetadataV {
    pub general: Option<RawDescriptorV>,
    pub fixed_line: Option<RawDescriptorV>,
    pub mobile: Option<RawDescriptorV>,
    pub toll_free: Option<RawDescriptorV>,
    pub premium_rate: Option<RawDescriptorV>,
    pub shared_cost: Option<RawDescriptorV>,
    pub personal_number: Option<RawDescriptorV>,
    pub voip: Option<RawDescriptorV>,
    pub pager: Option<RawDescriptorV>,
    pub uan: Option<RawDescriptorV>,
    pub emergency: Option<RawDescriptorV>,
    pub voicemail: Option<RawDescriptorV>,
    pub short_code: Option<RawDescriptorV>,
    pub standard_rate: Option<RawDescriptorV>,
    pub carrier: Option<RawDescriptorV>,
    pub no_international: Option<RawDescriptorV>,
    pub id: Option<Seq<char>>,
    pub country_code: Option<u16>,
    pub international_prefix: Option<Seq<char>>,
    pub preferred_international_prefix: Option<Seq<char>>,
    pub national_prefix: Option<Seq<char>>,
    pub preferred_extension_prefix: Option<Seq<char>>,
    pub national_prefix_for_parsing: Option<Seq<char>>,
    pub national_prefix_transform_rule: Option<Seq<char>>,
    pub format: Seq<RawFormatV>,
    pub international_format: Seq<RawFormatV>,
    pub main_country_for_code: bool,
    pub leading_digits: Option<Seq<char>>,
    pub mobile_number_portable: bool,
}

impl View for RawMetadata {
    type V = RawMetadataV;

    open spec fn view(&self) -> RawMetadataV {
        RawMetadataV {
            general: self.general.deep_view(),
            fixed_line: self.fixed_line.deep_view(),
            mobile: self.mobile.deep_view(),
            toll_free: self.toll_free.deep_view(),
            premium_rate: self.premium_rate.deep_view(),
            shared_cost: self.shared_cost.deep_view(),
            personal_number: self.personal_number.deep_view(),
            voip: self.voip.deep_view(),
            pager: self.pager.deep_view(),
            uan: self.uan.deep_view(),
            emergency: self.emergency.deep_view(),
            voicemail: self.voicemail.deep_view(),
            short_code: self.short_code.deep_view(),
            standard_rate: self.standard_rate.deep_view(),
            carrier: self.carrier.deep_view(),
            no_international: self.no_international.deep_view(),
            id: self.id.deep_view(),
            country_code: self.country_code,
            international_prefix: self.international_prefix.deep_view(),
            preferred_international_prefix: self.preferred_international_prefix.deep_view(),
            national_prefix: self.national_prefix.deep_view(),
            preferred_extension_prefix: self.preferred_extension_prefix.deep_view(),
            national_prefix_for_parsing: self.national_prefix_for_parsing.deep_view(),
            national_prefix_transform_rule: self.national_prefix_transform_rule.deep_view(),
            format: self.format.deep_view(),
            international_format: self.international_format.deep_view(),
            main_country_for_code: self.main_country_for_code,
            leading_digits: self.leading_digits.deep_view(),
            mobile_number_portable: self.mobile_number_portable,
        }
    }
}

impl DeepView for RawMetadata {
    type V = RawMetadataV;

    open spec fn deep_view(&self) -> RawMetadataV {
        self.view()
    }
}

impl Default for RawMetadata {
    /// A raw record with every field absent, empty format lists, and both
    /// boolean flags cleared.
    fn default() -> (r: Self)
        ensures
            r@.general is None,
            r@.fixed_line is None,
            r@.mobile is None,
            r@.toll_free is None,
            r@.premium_rate is None,
            r@.shared_cost is None,
            r@.personal_number is None,
            r@.voip is None,
            r@.pager is None,
            r@.uan is None,
            r@.emergency is None,
            r@.voicemail is None,
            r@.short_code is None,
            r@.standard_rate is None,
            r@.carrier is None,
            r@.no_international is None,
            r@.id is None,
            r@.country_code is None,
            r@.international_prefix is None,
            r@.preferred_international_prefix is None,
            r@.national_prefix is None,
            r@.preferred_extension_prefix is None,
            r@.national_prefix_for_parsing is None,
            r@.national_prefix_transform_rule is None,
            r@.format.len() == 0,
            r@.international_format.len() == 0,
            !r@.main_country_for_code,
            r@.leading_digits is None,
            !r@.mobile_number_portable,
    {
        RawMetadata {
            general: None,
            fixed_line: None,
            mobile: None,
            toll_free: None,
            premium_rate: None,
            shared_cost: None,
            personal_number: None,
            voip: None,
            pager: None,
            uan: None,
            emergency: None,
            voicemail: None,
            short_code: None,
            standard_rate: None,
            carrier: None,
            no_international: None,
            id: None,
            country_code: None,
            international_prefix: None,
            preferred_international_prefix: None,
            national_prefix: None,
            preferred_extension_prefix: None,
            national_prefix_for_parsing: None,
            national_prefix_transform_rule: None,
            format: Vec::new(),
            international_format: Vec::new(),
            main_country_for_code: false,
            leading_digits: None,
            mobile_number_portable: false,
        }
    }
}

} // verus!
