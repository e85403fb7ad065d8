//! The metrics text formatter: renders datasets in the Prometheus text
//! exposition format, byte-exactly specified.
//!
//! All output is produced as UTF-8 bytes appended to a caller-supplied
//! buffer.

use crate::common::{spec_hex_bytes, DefaultDS, TimePropertiesDS};
use vstd::prelude::*;
use vstd::string::StringSliceAdditionalSpecFns;

verus! {

/// Appends a byte string to the output buffer.
pub fn append_bytes(w: &mut Vec<u8>, s: &[u8])
    ensures
        final(w)@ == old(w)@ + s@,
{
    let mut i: usize = 0;
    while i < s.len()
        invariant
            0 <= i <= s@.len(),
            w@ == old(w)@ + s@.take(i as int),
        decreases s@.len() - i,
    {
        w.push(s[i]);
        i = i + 1;
        proof {
            assert(old(w)@ + s@.take(i as int) =~= (old(w)@ + s@.take(i - 1)).push(s@[i - 1]));
        }
    }
    proof {
        assert(s@.take(s@.len() as int) =~= s@);
    }
}

/// Appends a text fragment to the output buffer, as its UTF-8 bytes.
pub fn append_str(w: &mut Vec<u8>, s: &str)
    ensures
        final(w)@ == old(w)@ + s.spec_bytes(),
{
    append_bytes(w, s.as_bytes());
}

/// The decimal rendering of an unsigned number, as ASCII codes.
pub open spec fn spec_dec(n: nat) -> Seq<u8>
    decreases n,
{
    if n < 10 {
        seq![(48 + n) as u8]
    } else {
        spec_dec(n / 10).push((48 + n % 10) as u8)
    }
}

/// The decimal rendering of a signed number: a minus sign before the
/// magnitude when negative.
pub open spec fn spec_dec_signed(v: int) -> Seq<u8> {
    if v >= 0 {
        spec_dec(v as nat)
    } else {
        seq![45u8] + spec_dec((-v) as nat)
    }
}

/// Renders an unsigned number in decimal.
pub fn dec_u128(n: u128) -> (r: Vec<u8>)
    ensures
        r@ == spec_dec(n as nat),
    decreases n,
{
    if n < 10 {
        let mut out: Vec<u8> = Vec::new();
        out.push(48 + (n as u8));
        out
    } else {
        let mut out = dec_u128(n / 10);
        out.push(48 + ((n % 10) as u8));
        out
    }
}

/// Renders a signed number in decimal.
pub fn dec_i128(v: i128) -> (r: Vec<u8>)
    ensures
        r@ == spec_dec_signed(v as int),
{
    if v >= 0 {
        dec_u128(v as u128)
    } else {
        let magnitude: u128 = ((-(v + 1)) as u128) + 1;
        let mut out: Vec<u8> = Vec::new();
        out.push(45);
        let digits = dec_u128(magnitude);
        append_bytes(&mut out, digits.as_slice());
        proof {
            assert(out@ =~= seq![45u8] + spec_dec(magnitude as nat));
        }
        out
    }
}

/// The escaping of one byte of a label value: backslash, double quote
/// and newline get a backslash escape, every other byte stands as it is.
pub open spec fn spec_escape_byte(b: u8) -> Seq<u8> {
    if b == 92 {
        seq![92u8, 92u8]
    } else if b == 34 {
        seq![92u8, 34u8]
    } else if b == 10 {
        seq![92u8, 110u8]
    } else {
        seq![b]
    }
}

/// The escaping of a whole label value.
pub open spec fn spec_escaped(s: Seq<u8>) -> Seq<u8>
    decreases s.len(),
{
    if s.len() == 0 {
        Seq::empty()
    } else {
        spec_escaped(s.drop_last()) + spec_escape_byte(s.last())
    }
}

/// Appends a label value with backslash, double quote and newline
/// escaped.
pub fn append_escaped(w: &mut Vec<u8>, s: &[u8])
    ensures
        final(w)@ == old(w)@ + spec_escaped(s@),
{
    let mut i: usize = 0;
    while i < s.len()
        invariant
            0 <= i <= s@.len(),
            w@ == old(w)@ + spec_escaped(s@.take(i as int)),
        decreases s@.len() - i,
    {
        let b = s[i];
        if b == 92 {
            w.push(92);
            w.push(92);
        } else if b == 34 {
            w.push(92);
            w.push(34);
        } else if b == 10 {
            w.push(92);
            w.push(110);
        } else {
            w.push(b);
        }
        i = i + 1;
        proof {
            assert(s@.take(i as int).drop_last() =~= s@.take(i - 1));
            assert(w@ =~= old(w)@ + spec_escaped(s@.take(i as int)));
        }
    }
    proof {
        assert(s@.take(s@.len() as int) =~= s@);
    }
}

/// The unit a metric is measured in.
#[derive(PartialEq, Eq, Clone, Copy, Structural, Debug)]
pub enum Unit {
    Seconds,
}

/// The text of a unit.
pub open spec fn spec_unit_bytes(u: Unit) -> Seq<u8> {
    "seconds".spec_bytes()
}

impl Unit {
    /// The text of this unit.
    pub fn as_str(&self) -> (r: &'static str)
        ensures
            r.spec_bytes() == spec_unit_bytes(*self),
    {
        "seconds"
    }
}

/// Whether a metric gauges a level or counts events.
#[derive(PartialEq, Eq, Clone, Copy, Structural, Debug)]
pub enum MetricType {
    Gauge,
    Counter,
}

/// The text of a metric type.
pub open spec fn spec_metric_type_bytes(t: MetricType) -> Seq<u8> {
    match t {
        MetricType::Gauge => "gauge".spec_bytes(),
        MetricType::Counter => "counter".spec_bytes(),
    }
}

impl MetricType {
    /// The text of this metric type.
    pub fn as_str(&self) -> (r: &'static str)
        ensures
            r.spec_bytes() == spec_metric_type_bytes(*self),
    {
        match self {
            MetricType::Gauge => "gauge",
            MetricType::Counter => "counter",
        }
    }
}

/// One sample of a metric: its labels, each a name with a value, and
/// the rendered sample value.
#[derive(Debug, Clone)]
pub struct Measurement {
    pub labels: Vec<(Vec<u8>, Vec<u8>)>,
    pub value: Vec<u8>,
}

/// The mathematical content of a measurement: label names and values,
/// and the sample value, as byte strings.
#[verifier::ext_equal]
pub struct MeasurementView {
    pub labels: Seq<(Seq<u8>, Seq<u8>)>,
    pub value: Seq<u8>,
}

impl View for Measurement {
    type V = MeasurementView;

    open spec fn view(&self) -> MeasurementView {
        MeasurementView {
            labels: Seq::new(self.labels@.len(), |i: int| (self.labels@[i].0@, self.labels@[i].1@)),
            value: self.value@,
        }
    }
}

/// The views of a list of measurements.
pub open spec fn spec_measurement_views(ms: Seq<Measurement>) -> Seq<MeasurementView> {
    ms.map_values(|m: Measurement| m@)
}

/// The full metric name: the `statime_` prefix, the base name, and the
/// unit suffix if there is one.
pub open spec fn spec_full_name(name: Seq<u8>, unit: Option<Unit>) -> Seq<u8> {
    match unit {
        Some(u) => "statime_".spec_bytes() + name + "_".spec_bytes() + spec_unit_bytes(u),
        None => "statime_".spec_bytes() + name,
    }
}

/// The label block of one sample, without its surrounding braces:
/// `name="escaped-value"` items separated by commas.
pub open spec fn spec_labels_text(ls: Seq<(Seq<u8>, Seq<u8>)>) -> Seq<u8>
    decreases ls.len(),
{
    if ls.len() == 0 {
        Seq::empty()
    } else {
        let sep: Seq<u8> = if ls.len() > 1 {
            ",".spec_bytes()
        } else {
            Seq::empty()
        };
        spec_labels_text(ls.drop_last()) + sep + ls.last().0 + "=\"".spec_bytes() + spec_escaped(
            ls.last().1,
        ) + "\"".spec_bytes()
    }
}

/// One sample line: the full metric name, the label block in braces when
/// there are labels, a space, the value, a newline.
pub open spec fn spec_measurement_line(full_name: Seq<u8>, m: MeasurementView) -> Seq<u8> {
    let labels: Seq<u8> = if m.labels.len() > 0 {
        "{".spec_bytes() + spec_labels_text(m.labels) + "}".spec_bytes()
    } else {
        Seq::empty()
    };
    full_name + labels + " ".spec_bytes() + m.value + "\n".spec_bytes()
}

/// The sample lines of all measurements, in order.
pub open spec fn spec_measurement_lines(full_name: Seq<u8>, ms: Seq<MeasurementView>) -> Seq<u8>
    decreases ms.len(),
{
    if ms.len() == 0 {
        Seq::empty()
    } else {
        spec_measurement_lines(full_name, ms.drop_last()) + spec_measurement_line(
            full_name,
            ms.last(),
        )
    }
}

/// The complete exposition text of one metric: the HELP, TYPE and
/// optional UNIT comment lines followed by one line per measurement.
pub open spec fn spec_metric_text(
    name: Seq<u8>,
    help: Seq<u8>,
    metric_type: MetricType,
    unit: Option<Unit>,
    ms: Seq<MeasurementView>,
) -> Seq<u8> {
    let full_name = spec_full_name(name, unit);
    let unit_line: Seq<u8> = match unit {
        Some(u) => "# UNIT ".spec_bytes() + full_name + " ".spec_bytes() + spec_unit_bytes(u)
            + "\n".spec_bytes(),
        None => Seq::empty(),
    };
    "# HELP ".spec_bytes() + full_name + " ".spec_bytes() + help + ".\n".spec_bytes()
        + "# TYPE ".spec_bytes() + full_name + " ".spec_bytes() + spec_metric_type_bytes(
        metric_type,
    ) + "\n".spec_bytes() + unit_line + spec_measurement_lines(full_name, ms)
}

/// Writes one metric in the text exposition format: HELP, TYPE and
/// optional UNIT comment lines, then one line per measurement with its
/// labels escaped.
#[verifier::rlimit(50)]
pub fn format_metric(
    w: &mut Vec<u8>,
    name: &str,
    help: &str,
    metric_type: MetricType,
    unit: Option<Unit>,
    measurements: Vec<Measurement>,
)
    ensures
        final(w)@ == old(w)@ + spec_metric_text(
            name.spec_bytes(),
            help.spec_bytes(),
            metric_type,
            unit,
            spec_measurement_views(measurements@),
        ),
{
    let ghost views = spec_measurement_views(measurements@);
    let mut full_name: Vec<u8> = Vec::new();
    append_str(&mut full_name, "statime_");
    append_str(&mut full_name, name);
    match unit {
        Some(u) => {
            append_str(&mut full_name, "_");
            append_str(&mut full_name, u.as_str());
        },
        None => {},
    }
    proof {
        assert(full_name@ =~= spec_full_name(name.spec_bytes(), unit));
    }

    append_str(w, "# HELP ");
    append_bytes(w, full_name.as_slice());
    append_str(w, " ");
    append_str(w, help);
    append_str(w, ".\n");

    append_str(w, "# TYPE ");
    append_bytes(w, full_name.as_slice());
    append_str(w, " ");
    append_str(w, metric_type.as_str());
    append_str(w, "\n");

    match unit {
        Some(u) => {
            append_str(w, "# UNIT ");
            append_bytes(w, full_name.as_slice());
            append_str(w, " ");
            append_str(w, u.as_str());
            append_str(w, "\n");
        },
        None => {},
    }

    let ghost header_done = w@;
    proof {
        assert(header_done =~= old(w)@ + spec_metric_text(
            name.spec_bytes(),
            help.spec_bytes(),
            metric_type,
            unit,
            Seq::<MeasurementView>::empty(),
        ));
    }

    let mut i: usize = 0;
    while i < measurements.len()
        invariant
            0 <= i <= measurements@.len(),
            views == spec_measurement_views(measurements@),
            views.len() == measurements@.len(),
            full_name@ == spec_full_name(name.spec_bytes(), unit),
            w@ == header_done + spec_measurement_lines(full_name@, views.take(i as int)),
        decreases measurements@.len() - i,
    {
        let ghost line_start = w@;
        let m = &measurements[i];
        append_bytes(w, full_name.as_slice());
        if m.labels.len() > 0 {
            append_str(w, "{");
            let ghost labels_start = w@;
            let mut j: usize = 0;
            while j < m.labels.len()
                invariant
                    0 <= j <= m.labels@.len(),
                    w@ == labels_start + spec_labels_text(m@.labels.take(j as int)),
                    m@.labels.len() == m.labels@.len(),
                decreases m.labels@.len() - j,
            {
                if j > 0 {
                    append_str(w, ",");
                }
                append_bytes(w, m.labels[j].0.as_slice());
                append_str(w, "=\"");
                append_escaped(w, m.labels[j].1.as_slice());
                append_str(w, "\"");
                j = j + 1;
                proof {
                    assert(m@.labels.take(j as int).drop_last() =~= m@.labels.take(j - 1));
                    assert(w@ =~= labels_start + spec_labels_text(m@.labels.take(j as int)));
                }
            }
            proof {
                assert(m@.labels.take(m@.labels.len() as int) =~= m@.labels);
            }
            append_str(w, "}");
        }
        append_str(w, " ");
        append_bytes(w, m.value.as_slice());
        append_str(w, "\n");
        i = i + 1;
        proof {
            assert(views[i - 1] == m@);
            assert(views.take(i as int).drop_last() =~= views.take(i - 1));
            assert(w@ =~= line_start + spec_measurement_line(full_name@, m@));
            assert(w@ =~= header_done + spec_measurement_lines(full_name@, views.take(i as int)));
        }
    }
    proof {
        assert(views.take(views.len() as int) =~= views);
        assert(w@ =~= old(w)@ + spec_metric_text(
            name.spec_bytes(),
            help.spec_bytes(),
            metric_type,
            unit,
            views,
        ));
    }
}

/// The single-sample measurement list that the dataset formatters use:
/// one sample whose only label is the clock identity.
pub open spec fn spec_one_identity_measurement(
    identity: Seq<u8>,
    value: Seq<u8>,
) -> Seq<MeasurementView> {
    seq![
        MeasurementView {
            labels: seq![("clock_identity".spec_bytes(), identity)],
            value: value,
        },
    ]
}

/// Builds the one-sample measurement list labelled with the clock
/// identity.
fn measurement_one(identity: &Vec<u8>, value: Vec<u8>) -> (r: Vec<Measurement>)
    ensures
        spec_measurement_views(r@) =~~= spec_one_identity_measurement(identity@, value@),
{
    let mut labels: Vec<(Vec<u8>, Vec<u8>)> = Vec::new();
    let name = vstd::slice::slice_to_vec("clock_identity".as_bytes());
    let identity_value = vstd::slice::slice_to_vec(identity.as_slice());
    labels.push((name, identity_value));
    let mut out: Vec<Measurement> = Vec::new();
    out.push(Measurement { labels, value });
    proof {
        assert(out@[0]@.labels =~~= seq![("clock_identity".spec_bytes(), identity@)]);
        assert(spec_measurement_views(out@) =~~= spec_one_identity_measurement(identity@, value@));
    }
    out
}

/// The exposition text of the Default dataset: its port count and the
/// three clock-quality figures, each labelled with the clock identity.
pub open spec fn spec_default_ds_text(ds: DefaultDS) -> Seq<u8> {
    let identity = spec_hex_bytes(ds.clock_identity.0@);
    spec_metric_text(
        "number_ports".spec_bytes(),
        "The amount of ports assigned".spec_bytes(),
        MetricType::Gauge,
        None,
        spec_one_identity_measurement(identity, spec_dec(ds.number_ports as nat)),
    ) + spec_metric_text(
        "quality_class".spec_bytes(),
        "The PTP clock class".spec_bytes(),
        MetricType::Gauge,
        None,
        spec_one_identity_measurement(identity, spec_dec(ds.clock_quality.clock_class as nat)),
    ) + spec_metric_text(
        "quality_accuracy".spec_bytes(),
        "The quality of the clock".spec_bytes(),
        MetricType::Gauge,
        None,
        spec_one_identity_measurement(
            identity,
            spec_dec(ds.clock_quality.clock_accuracy.0 as nat),
        ),
    ) + spec_metric_text(
        "quality_offset_scaled_log_variance".spec_bytes(),
        "2-log of the variance (in seconds^2) of the clock when not synchronized".spec_bytes(),
        MetricType::Gauge,
        None,
        spec_one_identity_measurement(
            identity,
            spec_dec(ds.clock_quality.offset_scaled_log_variance as nat),
        ),
    )
}

/// Writes the Default dataset metrics: the port count and the clock
/// quality, labelled with the clock identity.
pub fn format_default_ds(w: &mut Vec<u8>, default_ds: &DefaultDS)
    ensures
        final(w)@ == old(w)@ + spec_default_ds_text(*default_ds),
{
    let clock_identity = default_ds.clock_identity.to_hex_bytes();

    format_metric(
        w,
        "number_ports",
        "The amount of ports assigned",
        MetricType::Gauge,
        None,
        measurement_one(&clock_identity, dec_u128(default_ds.number_ports as u128)),
    );
    format_metric(
        w,
        "quality_class",
        "The PTP clock class",
        MetricType::Gauge,
        None,
        measurement_one(&clock_identity, dec_u128(default_ds.clock_quality.clock_class as u128)),
    );
    format_metric(
        w,
        "quality_accuracy",
        "The quality of the clock",
        MetricType::Gauge,
        None,
        measurement_one(
            &clock_identity,
            dec_u128(default_ds.clock_quality.clock_accuracy.to_primitive() as u128),
        ),
    );
    format_metric(
        w,
        "quality_offset_scaled_log_variance",
        "2-log of the variance (in seconds^2) of the clock when not synchronized",
        MetricType::Gauge,
        None,
        measurement_one(
            &clock_identity,
            dec_u128(default_ds.clock_quality.offset_scaled_log_variance as u128),
        ),
    );
}

/// The exposition text of the TimeProperties dataset: the current UTC
/// offset, read as zero when none is known.
pub open spec fn spec_time_properties_ds_text(ds: TimePropertiesDS) -> Seq<u8> {
    let offset: int = match ds.current_utc_offset {
        Some(v) => v as int,
        None => 0,
    };
    spec_metric_text(
        "current_utc_offset".spec_bytes(),
        "Current offset from UTC".spec_bytes(),
        MetricType::Gauge,
        None,
        seq![MeasurementView { labels: Seq::empty(), value: spec_dec_signed(offset) }],
    )
}

/// Writes the TimeProperties dataset metrics: the current UTC offset.
pub fn format_time_properties_ds(w: &mut Vec<u8>, time_properties_ds: &TimePropertiesDS)
    ensures
        final(w)@ == old(w)@ + spec_time_properties_ds_text(*time_properties_ds),
{
    let offset: i16 = match time_properties_ds.current_utc_offset {
        Some(v) => v,
        None => 0,
    };
    let value = dec_i128(offset as i128);
    let mut measurements: Vec<Measurement> = Vec::new();
    measurements.push(Measurement { labels: Vec::new(), value });
    proof {
        assert(spec_measurement_views(measurements@) =~~= seq![
            MeasurementView {
                labels: Seq::empty(),
                value: spec_dec_signed(
                    match time_properties_ds.current_utc_offset {
                        Some(v) => v as int,
                        None => 0,
                    },
                ),
            },
        ]);
    }
    format_metric(
        w,
        "current_utc_offset",
        "Current offset from UTC",
        MetricType::Gauge,
        None,
        measurements,
    );
}

} // verus!
