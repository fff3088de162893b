# temporal_bridge

A bridge through which Haskell drives a Temporal Core runtime over a C ABI. The library in `src/`
holds what the bridge decides, with contracts that Verus proves; `app/` holds the entry points, the
threads and the Tokio tasks around it.

- `runtime`: handles to Core runtimes, the calls pending on them, and when a runtime is handed to
  its dropper thread.
- `lifecycle`: what holds of runtimes over any course of events.
- `callback`: what is written into the slots of a waiting Haskell thread before it is woken.
- `init`: the stages in which a runtime comes up.
- `telemetry`: the metrics that can be asked for, as options of Core.
- `logs`: the log lines that are handed out.
- `array`: byte arrays in the layout that C reads.

Functions that would act on the outside return what is to be done as a value. Bringing up a runtime,
for instance, is a chain of requests, each answered with what came of it; finishing a call is a
short list of steps, to be performed in order.
