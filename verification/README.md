# meetily

Verified core of the Meetily meeting assistant, written in Verus.

- `src/` is the library, proved with Verus:
  - `meeting_detect`: auto-detection settings and the reported detection state;
  - `calendar`: calendar settings, which cached events are happening at a
    given time, and the decisions of the manual refresh and of each polling
    cycle;
  - `dictionary`: the shared transcription dictionary (add, remove, edit,
    VoiceInk import);
  - `embedding`: the fixed input window and frame mask of the speaker
    embedding model;
  - `resources`: the MCP resources, read as a sequence of steps whose file
    access is left to the caller.
- `app/` holds what Verus does not see: async locks, the file system, JSON
  encoding, the ONNX Runtime session and the floating-point arithmetic on
  embeddings.
- `tests/` runs the library on concrete values.
