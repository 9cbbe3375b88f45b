//! The values that the type-stub templates of the language binding are
//! rendered with.

use vstd::prelude::*;

verus! {

/// What the stub templates are rendered with.
pub struct Data {
    pub host_package: String,
    pub tracing_subscriber_module_name: String,
    pub version: String,
    pub layer_otel_otlp_file: bool,
    pub layer_otel_otlp: bool,
    /// Whether any layer beyond the plain file layer is offered.
    pub any_additional_layer: bool,
}

impl Data {
    pub fn new(
        host_package: String,
        tracing_subscriber_module_name: String,
        version: String,
        layer_otel_otlp_file: bool,
        layer_otel_otlp: bool,
    ) -> (r: Data)
        ensures
            r.host_package == host_package,
            r.tracing_subscriber_module_name == tracing_subscriber_module_name,
            r.version == version,
            r.layer_otel_otlp_file == layer_otel_otlp_file,
            r.layer_otel_otlp == layer_otel_otlp,
            r.any_additional_layer == (layer_otel_otlp_file || layer_otel_otlp),
    {
        Data {
            host_package,
            tracing_subscriber_module_name,
            version,
            layer_otel_otlp_file,
            layer_otel_otlp,
            any_additional_layer: layer_otel_otlp_file || layer_otel_otlp,
        }
    }
}

} // verus!
